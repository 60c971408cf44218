use cytryna::align_up;

#[test]
fn check_align_up() {
    let alignment = 0x10;
    let val_unaligned = 0x37;
    let val_aligned = 0x40;

    assert_eq!(align_up(val_unaligned, alignment), 0x40);
    assert_eq!(align_up(val_aligned, alignment), 0x40);
}
