use logic_gates::bit::Bit;
use logic_gates::byte::Byte;

const H: Bit = Bit::High;
const L: Bit = Bit::Low;

fn bits(b: Byte) -> [Bit; 8] {
    let mut out = [L; 8];
    for (i, slot) in out.iter_mut().enumerate() {
        *slot = b.get(i).unwrap();
    }
    out
}

const A: [Bit; 8] = [H, L, H, L, H, L, H, L];
const B: [Bit; 8] = [H, H, L, L, H, H, L, L];
const ZERO: [Bit; 8] = [L; 8];

#[test]
fn new_and_get() {
    let a = Byte::new(A);
    assert_eq!(bits(a), A);
    assert_eq!(a.get(7), Some(L));
    assert_eq!(a.get(8), None);
    assert_eq!(a.get(usize::MAX), None);
}

#[test]
fn index_reads_bits() {
    let a = Byte::new(A);
    assert_eq!(a[0], H);
    assert_eq!(a[1], L);
    assert_eq!(a[6], H);
}

#[test]
fn bitwise_gates() {
    let a = Byte::new(A);
    let b = Byte::new(B);
    assert_eq!(bits(a.nand(b)), [L, H, H, H, L, H, H, H]);
    assert_eq!(bits(a.not()), [L, H, L, H, L, H, L, H]);
    assert_eq!(bits(a.and(b)), [H, L, L, L, H, L, L, L]);
    assert_eq!(bits(a.or(b)), [H, H, H, L, H, H, H, L]);
    assert_eq!(bits(a.xor(b)), [L, H, H, L, L, H, H, L]);
}

#[test]
fn bitwise_operators() {
    let a = Byte::new(A);
    let b = Byte::new(B);
    assert_eq!(a & b, a.and(b));
    assert_eq!(a | b, a.or(b));
    assert_eq!(a ^ b, a.xor(b));
    assert_eq!(!a, a.not());
    let mut x = a;
    x &= b;
    assert_eq!(x, a.and(b));
    let mut y = a;
    y |= b;
    assert_eq!(y, a.or(b));
    let mut z = a;
    z ^= b;
    assert_eq!(z, a.xor(b));
}

#[test]
fn equality() {
    assert_eq!(Byte::new(A), Byte::new(A));
    assert_ne!(Byte::new(A), Byte::new(B));
    assert_ne!(Byte::new(ZERO), Byte::new([L, L, L, L, L, L, L, H]));
}

#[test]
fn not_twice_gives_back_byte() {
    let a = Byte::new(A);
    assert_eq!(a.not().not(), a);
}

#[test]
fn de_morgan() {
    let a = Byte::new(A);
    let b = Byte::new(B);
    assert_eq!(a.and(b).not(), a.not().or(b.not()));
    assert_eq!(a.or(b).not(), a.not().and(b.not()));
}

#[test]
fn byte_mux() {
    let a = Byte::new(A);
    let b = Byte::new(B);
    assert_eq!(a.mux(b, L), a);
    assert_eq!(a.mux(b, H), b);
}

#[test]
fn byte_dmux_outputs() {
    let a = Byte::new(A);
    let [first, second] = a.dmux(H);
    assert_eq!(bits(first), A);
    assert_eq!(bits(second), ZERO);
    let [first, second] = a.dmux(L);
    assert_eq!(bits(first), ZERO);
    assert_eq!(bits(second), ZERO);
}

#[test]
fn byte_dmux_4_way_outputs() {
    let a = Byte::new(A);
    let out = a.dmux_4_way([H, H]);
    assert_eq!(bits(out[0]), A);
    for o in &out[1..] {
        assert_eq!(bits(*o), ZERO);
    }
    for sel in [[L, L], [L, H], [H, L]] {
        for o in a.dmux_4_way(sel) {
            assert_eq!(bits(o), ZERO);
        }
    }
}

#[test]
fn byte_dmux_8_way_outputs() {
    let b = Byte::new(B);
    let out = b.dmux_8_way([H, H, H]);
    assert_eq!(bits(out[0]), B);
    for o in &out[1..] {
        assert_eq!(bits(*o), ZERO);
    }
    for o in b.dmux_8_way([H, L, H]) {
        assert_eq!(bits(o), ZERO);
    }
}

#[test]
fn byte_mux_undoes_dmux_on_zero_byte() {
    let z = Byte::new(ZERO);
    for sel in [L, H] {
        let [first, second] = z.dmux(sel);
        assert_eq!(first.mux(second, sel), z);
    }
}
