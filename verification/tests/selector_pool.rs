use securedraw::errors::DrawError;
use securedraw::identity::Identity;
use securedraw::pool::DrawPool;
use securedraw::seed::{derive_clock_seed, u64_le_bytes};

fn ident(n: u64) -> Identity {
    Identity::new(n, 0, 0, 0)
}

fn pool_of_five() -> (DrawPool, Vec<Identity>) {
    let a = ident(1);
    let b = ident(2);
    let c = ident(3);
    let d = ident(4);
    let e = ident(5);
    let mut pool = DrawPool::new();
    pool.set_participants(vec![a, b, c, d, e]);
    (pool, vec![a, b, c, d, e])
}

#[test]
fn draw_three_of_five_follows_the_seed() {
    // seed bytes: 7 -> index 2 (C); 2 -> 2 collides; 9 -> 4 (E); 4 -> 4
    // collides; 6 -> 1 (B). Expected winners: [C, E, B] in that order.
    let (mut pool, ids) = pool_of_five();
    let seed = vec![7u8, 2, 9, 4, 6];
    let winners = pool.draw_winners(3, &seed).unwrap();
    assert_eq!(winners, vec![ids[2], ids[4], ids[1]]);
    assert_eq!(pool.members, vec![ids[2], ids[4], ids[1]]);
}

#[test]
fn draw_is_reproducible_for_fixed_pool_and_seed() {
    let seed = vec![7u8, 2, 9, 4, 6, 200, 13];
    let (mut first, _) = pool_of_five();
    let (mut second, _) = pool_of_five();
    let w1 = first.draw_winners(4, &seed).unwrap();
    let w2 = second.draw_winners(4, &seed).unwrap();
    assert_eq!(w1, w2);
}

#[test]
fn draw_more_than_pool_fails_insufficient_and_keeps_pool() {
    let (mut pool, ids) = pool_of_five();
    let seed = vec![7u8, 2, 9, 4, 6];
    let r = pool.draw_winners(6, &seed);
    assert_eq!(r, Err(DrawError::InsufficientPool));
    assert_eq!(pool.members, ids);
}

#[test]
fn draw_from_empty_pool_fails_insufficient() {
    let mut pool = DrawPool::new();
    let seed = vec![1u8];
    assert_eq!(pool.draw_winners(1, &seed), Err(DrawError::InsufficientPool));
    assert!(pool.members.is_empty());
}

#[test]
fn constant_seed_stalls_after_one_pick() {
    // every byte keeps naming index 0, so no second pick can ever land
    let mut pool = DrawPool::new();
    pool.set_participants(vec![ident(10), ident(20)]);
    let seed = vec![0u8, 0, 0, 0];
    let r = pool.draw_winners(2, &seed);
    assert_eq!(r, Err(DrawError::SelectionStalled));
    assert_eq!(pool.members, vec![ident(10), ident(20)]);
}

#[test]
fn drawing_the_whole_pool_yields_every_member_once() {
    let (mut pool, ids) = pool_of_five();
    let seed = vec![3u8, 250, 11, 98, 77, 1, 42, 4];
    let winners = pool.draw_winners(5, &seed).unwrap();
    assert_eq!(winners.len(), 5);
    for id in &ids {
        assert!(winners.contains(id));
    }
}

#[test]
fn largest_pool_draw_returns_unique_members() {
    let ids: Vec<Identity> = (0..50u64).map(ident).collect();
    let mut pool = DrawPool::new();
    pool.set_participants(ids.clone());
    // every index in [0, 50) appears as a residue, so the full draw lands
    let seed: Vec<u8> = (0..50u8).rev().collect();
    let winners = pool.draw_winners(50, &seed).unwrap();
    assert_eq!(winners.len(), 50);
    for i in 0..winners.len() {
        assert!(ids.contains(&winners[i]));
        for j in 0..i {
            assert_ne!(winners[j], winners[i]);
        }
    }
}

#[test]
fn drawing_zero_winners_empties_the_pool() {
    // a draw is destructive: the membership becomes exactly the winners
    let (mut pool, _) = pool_of_five();
    let winners = pool.draw_winners(0, &vec![9u8, 1]).unwrap();
    assert!(winners.is_empty());
    assert!(pool.members.is_empty());
}

#[test]
fn set_participants_replaces_membership_wholesale() {
    let (mut pool, _) = pool_of_five();
    pool.set_participants(vec![ident(77)]);
    assert_eq!(pool.members, vec![ident(77)]);
}

#[test]
fn le_bytes_are_lowest_byte_first() {
    assert_eq!(u64_le_bytes(0x0102_0304_0506_0708).as_slice(), &[
        8u8,
        7,
        6,
        5,
        4,
        3,
        2,
        1,
    ]);
    assert_eq!(u64_le_bytes(0).as_slice(), &[0u8; 8]);
}

#[test]
fn clock_seed_is_the_sha256_of_the_clock_bytes() {
    let t: i64 = 1_700_000_000;
    let seed = derive_clock_seed(t);
    assert_eq!(seed.len(), 32);
    let expected = anchor_lang::solana_program::hash::hash(&t.to_le_bytes());
    assert_eq!(seed, expected.to_bytes().to_vec());
    // a different tick gives a different seed
    assert_ne!(seed, derive_clock_seed(t + 1));
    // and the same tick gives the same seed again
    assert_eq!(seed, derive_clock_seed(t));
}
