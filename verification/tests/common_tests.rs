use emu8086::common::count_bit;

#[test]
fn test_count_bit() {
    let v = vec![
        0, 1, 2, 3, 4, 5, 6, 7, 0x1000, 0x2000, 0x3000, 0x4000, 0x5000, 0x6000, 0x7000, 0xffff,
    ];
    let r = vec![0, 1, 1, 2, 1, 2, 2, 3, 1, 1, 2, 1, 2, 2, 3, 16];

    for i in 0..v.len() {
        assert_eq!(r[i], count_bit(v[i]));
    }
}
