use bpg::ratio::Ratio;

#[test]
fn ratio_new_reduces() {
    let q = Ratio::new(12, 18);
    assert_eq!((q.numer(), q.denom()), (2, 3));
    let z = Ratio::new(0, 7);
    assert_eq!((z.numer(), z.denom()), (0, 1));
    let one = Ratio::new(5, 5);
    assert_eq!((one.numer(), one.denom()), (1, 1));
    assert_eq!(Ratio::new(4, 6), Ratio::new(2, 3));
}

#[test]
fn ratio_recip_and_integer() {
    let q = Ratio::new(3, 4).recip();
    assert_eq!((q.numer(), q.denom()), (4, 3));
    let n = Ratio::from_integer(9);
    assert_eq!((n.numer(), n.denom()), (9, 1));
}
