use logic_gates::bit::{or_n_way, or_slice, Bit};

const BITS: [Bit; 2] = [Bit::Low, Bit::High];

#[test]
fn not_operator_matches_not() {
    assert_eq!(!Bit::Low, Bit::High);
    assert_eq!(!Bit::High, Bit::Low);
}

#[test]
fn assign_operators() {
    for a in BITS {
        for b in BITS {
            let mut x = a;
            x &= b;
            assert_eq!(x, a.and(b));
            let mut y = a;
            y |= b;
            assert_eq!(y, a.or(b));
            let mut z = a;
            z ^= b;
            assert_eq!(z, a.xor(b));
        }
    }
}

#[test]
fn or_of_empty_is_low() {
    assert_eq!(or_n_way::<0>([]), Bit::Low);
    assert_eq!(or_slice(&[]), Bit::Low);
}

#[test]
fn or_of_longer_inputs() {
    assert_eq!(or_n_way([Bit::Low, Bit::Low, Bit::Low, Bit::High, Bit::Low]), Bit::High);
    assert_eq!(or_n_way([Bit::Low; 7]), Bit::Low);
    assert_eq!(or_slice(&[Bit::High]), Bit::High);
    assert_eq!(or_slice(&[Bit::Low, Bit::Low, Bit::Low]), Bit::Low);
    assert_eq!(or_slice(&[Bit::Low, Bit::Low, Bit::High]), Bit::High);
}

#[test]
fn mux_undoes_dmux() {
    for x in BITS {
        for sel in BITS {
            let [a, b] = x.dmux(sel);
            assert_eq!(a.mux(b, sel), x);
        }
    }
}

#[test]
fn or_of_demux_outputs_gives_input() {
    for x in BITS {
        for s0 in BITS {
            for s1 in BITS {
                assert_eq!(or_n_way(x.dmux_4_way([s0, s1])), x);
                for s2 in BITS {
                    assert_eq!(or_slice(&x.dmux_8_way([s0, s1, s2])), x);
                }
            }
        }
    }
}

#[test]
fn demux_selects_output_by_number() {
    let out = Bit::High.dmux_8_way([Bit::High, Bit::High, Bit::Low]);
    for (j, b) in out.iter().enumerate() {
        assert_eq!(*b == Bit::High, j == 6);
    }
}
