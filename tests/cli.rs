#![allow(non_snake_case)]

use clap::{Arg, Command};
use pvalve::cli::{parse_expected_size, Invocation, Opts, Speed};
use pvalve::unit::Unit;

type Result = anyhow::Result<()>;

fn parse(args: &[&str]) -> anyhow::Result<Invocation> {
    let args = [&["pvalve"][..], args].concat();
    let matches = Command::new("pvalve")
        .arg(Arg::new("speed_limit").short('L').takes_value(true))
        .arg(Arg::new("line_mode").short('l').long("line-mode"))
        .arg(Arg::new("null_mode").short('0').long("null"))
        .arg(
            Arg::new("expected_size")
                .short('s')
                .long("expected-size")
                .takes_value(true),
        )
        .try_get_matches_from(args)?;
    let speed = match matches.value_of("speed_limit") {
        Some(s) => Some(Speed::parse(s).map_err(|_| anyhow::Error::msg("invalid speed"))?),
        None => None,
    };
    let expected_size = match matches.value_of("expected_size") {
        Some(s) => Some(parse_expected_size(s).map_err(|_| anyhow::Error::msg("invalid size"))?),
        None => None,
    };
    let opts = Opts::new(
        speed,
        matches.is_present("line_mode"),
        matches.is_present("null_mode"),
        expected_size,
    );
    Ok(opts.into())
}

#[test]
fn when__unit_not_selected__then__bytes_is_used() -> Result {
    let Invocation { unit, .. } = parse(&[])?;
    assert_eq!(unit, Unit::Byte);
    Ok(())
}

#[test]
fn when__line_unit_selected__then__line_is_used() -> Result {
    let Invocation { unit, .. } = parse(&["-l"])?;
    assert_eq!(unit, Unit::Line);
    Ok(())
}

#[test]
fn when__null_unit_selected__then__null_is_used() -> Result {
    let Invocation { unit, .. } = parse(&["-0"])?;
    assert_eq!(unit, Unit::Null);
    Ok(())
}

#[test]
fn when__line_and_null_units_selected__then__null_is_used() -> Result {
    let Invocation { unit, .. } = parse(&["-l", "-0"])?;
    assert_eq!(unit, Unit::Null);
    Ok(())
}

#[test]
fn when__null_and_line_units_selected__then__null_is_used() -> Result {
    let Invocation { unit, .. } = parse(&["-0", "-l"])?;
    assert_eq!(unit, Unit::Null);
    Ok(())
}

#[test]
fn when__no_expected_size_supplied__then__none_is_used() -> Result {
    let Invocation { expected_size, .. } = parse(&[])?;
    assert_eq!(expected_size, None);
    Ok(())
}

#[test]
fn when__valid_expected_size_supplied__then__supplied_value_is_used() -> Result {
    let Invocation { expected_size, .. } = parse(&["-s", "123"])?;
    assert_eq!(expected_size, Some(123usize));
    Ok(())
}

#[test]
fn when__zero_expected_size_supplied__then__parse_fails() -> Result {
    parse(&["-s", "0"]).expect_err("parse should have failed");
    Ok(())
}

#[test]
fn speed_parses_positive_decimal() {
    assert_eq!(Speed::parse("42"), Ok(Speed(42)));
    assert_eq!(Speed::parse("+7"), Ok(Speed(7)));
    assert!(Speed::parse("0").is_err());
    assert!(Speed::parse("").is_err());
    assert!(Speed::parse("4x").is_err());
    assert!(Speed::parse("4294967296").is_err());
    assert_eq!("15".parse::<Speed>(), Ok(Speed(15)));
}

#[test]
fn speed_limit_flag_is_kept() -> Result {
    let Invocation { speed, .. } = parse(&["-L", "250"])?;
    assert_eq!(speed, Some(Speed(250)));
    Ok(())
}

#[test]
fn expected_size_rejects_non_numbers() {
    assert_eq!(parse_expected_size("123"), Ok(123));
    assert!(parse_expected_size("-1").is_err());
    assert!(parse_expected_size("abc").is_err());
}
