use pvalve::memslot::Memslot;

#[test]
fn slot_reads_what_was_written() {
    let (mut write, read) = Memslot::new(5u32).split();
    assert_eq!(read.get(), 5);
    write.set(7);
    assert_eq!(read.get(), 7);
    let other = read.clone();
    assert_eq!(other.get(), 7);
}
