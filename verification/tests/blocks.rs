use gqa_l9::blocks::{zero, Block, U64x2};

fn splat(a: u64, b: u64) -> Block {
    Block([U64x2(a, b); 64])
}

fn lanes(b: &Block) -> Vec<(u64, u64)> {
    b.0.iter().map(|l| (l.0, l.1)).collect()
}

#[test]
fn test_codegen() {
    let z = splat(2, 2);
    let j = splat(6, 6);
    let k = splat(7, 7);

    for r in (z ^ j ^ k).0.iter() {
        println!("{:02x} {:02x}", r.0, r.1);
    }
}

#[test]
fn xor_of_splats() {
    let r = splat(2, 2) ^ splat(6, 6) ^ splat(7, 7);
    assert_eq!(lanes(&r), vec![(3, 3); 64]);
}

#[test]
fn xor_is_lane_wise() {
    let mut a = splat(0, 0);
    let mut b = splat(0, 0);
    for i in 0..64 {
        a.0[i] = U64x2(i as u64, u64::MAX - i as u64);
        b.0[i] = U64x2(0xff00 + i as u64, 1 << (i % 64));
    }
    let r = a ^ b;
    for i in 0..64 {
        assert_eq!(r.0[i].0, (i as u64) ^ (0xff00 + i as u64));
        assert_eq!(r.0[i].1, (u64::MAX - i as u64) ^ (1 << (i % 64)));
    }
}

#[test]
fn zero_is_all_zero() {
    assert_eq!(lanes(&zero()), vec![(0, 0); 64]);
}

#[test]
fn xor_with_self_is_zero() {
    let a = splat(0xdead_beef, 0x1234);
    assert_eq!(lanes(&(a ^ a)), lanes(&zero()));
}

#[test]
fn zero_is_neutral() {
    let a = splat(17, 42);
    assert_eq!(lanes(&(a ^ zero())), lanes(&a));
}

#[test]
fn xor_commutes_and_associates() {
    let a = splat(1, 2);
    let b = splat(0xf0, 0x0f);
    let c = splat(u64::MAX, 5);
    assert_eq!(lanes(&(a ^ b)), lanes(&(b ^ a)));
    assert_eq!(lanes(&((a ^ b) ^ c)), lanes(&(a ^ (b ^ c))));
}

#[test]
fn xor_twice_cancels() {
    let a = splat(123, 456);
    let b = splat(789, 1011);
    assert_eq!(lanes(&((a ^ b) ^ b)), lanes(&a));
}
