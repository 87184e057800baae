use blog_crypto::algo::{multithread_init, KEY_BYTES};
use blog_crypto::generation::{Generational, KeyError};
use blog_crypto::rotating::RotatingKeyStore;
use blog_crypto::rotator::KeyRotator;
use blog_crypto::shared::SharedKeyStore;
use blog_crypto::stable::StableKeyStore;

fn material(b: u8) -> Vec<u8> {
    vec![b; KEY_BYTES]
}

#[test]
fn stable_store_has_one_generation() {
    let s = StableKeyStore::new(material(7));
    assert_eq!(s.current(), (0, material(7)));
    assert_eq!(s.by_id(0), Ok(material(7)));
    assert_eq!(s.by_id(1), Err(KeyError::GenerationNotFound));
}

#[test]
fn new_rotating_store_starts_at_zero() {
    let s = RotatingKeyStore::new(material(1), 3);
    assert_eq!(s.current(), (0, material(1)));
    assert_eq!(s.by_id(0), Ok(material(1)));
    assert_eq!(s.by_id(1), Err(KeyError::GenerationNotFound));
    assert_eq!(s.active_count(), 1);
}

#[test]
fn retention_two_after_three_rotations() {
    let mut s = RotatingKeyStore::new(material(0), 2);
    assert_eq!(s.rotate(material(1)), 1);
    assert_eq!(s.rotate(material(2)), 2);
    assert_eq!(s.rotate(material(3)), 3);
    assert_eq!(s.by_id(0), Err(KeyError::GenerationNotFound));
    assert_eq!(s.by_id(1), Ok(material(1)));
    assert_eq!(s.by_id(2), Ok(material(2)));
    assert_eq!(s.by_id(3), Ok(material(3)));
    assert_eq!(s.by_id(4), Err(KeyError::GenerationNotFound));
    assert_eq!(s.current(), (3, material(3)));
}

#[test]
fn exactly_one_active_after_every_rotation() {
    let mut s = RotatingKeyStore::new(material(0), 2);
    assert_eq!(s.active_count(), 1);
    for k in 1..10u8 {
        s.rotate(material(k));
        assert_eq!(s.active_count(), 1);
    }
}

#[test]
fn lookups_succeed_for_exactly_the_window() {
    for retention in 0..4usize {
        for k in 0..7u64 {
            let mut s = RotatingKeyStore::new(material(0), retention);
            for i in 1..=k {
                s.rotate(material(i as u8));
            }
            let window = std::cmp::min(k + 1, retention as u64 + 1);
            for id in 0..10u64 {
                let expected = id <= k && id + window > k;
                assert_eq!(s.by_id(id).is_ok(), expected, "retention {retention} k {k} id {id}");
            }
        }
    }
}

#[test]
fn retention_zero_keeps_only_current() {
    let mut s = RotatingKeyStore::new(material(0), 0);
    assert_eq!(s.rotate(material(1)), 1);
    assert_eq!(s.by_id(0), Err(KeyError::GenerationNotFound));
    assert_eq!(s.by_id(1), Ok(material(1)));
    assert_eq!(s.current(), (1, material(1)));
}

#[test]
fn rotator_failed_draw_leaves_store_unchanged() {
    let mut r = KeyRotator::new(RotatingKeyStore::new(material(0), 2));
    assert_eq!(r.rotate_with(Err(KeyError::EntropyError)), Err(KeyError::EntropyError));
    assert_eq!(r.rotate_with(Ok(vec![1u8; 3])), Err(KeyError::EntropyError));
    assert_eq!(r.store().current(), (0, material(0)));
    assert_eq!(r.store().by_id(1), Err(KeyError::GenerationNotFound));
}

#[test]
fn rotator_rotates_to_drawn_material() {
    let mut r = KeyRotator::new(RotatingKeyStore::new(material(0), 2));
    assert_eq!(r.rotate_with(Ok(material(9))), Ok(1));
    assert_eq!(r.store().current(), (1, material(9)));
    assert_eq!(r.store().by_id(0), Ok(material(0)));
}

#[test]
fn rotator_rotate_now_draws_fresh_material() {
    assert_eq!(multithread_init(), Ok(()));
    let mut r = KeyRotator::new(RotatingKeyStore::new(material(0), 1));
    assert_eq!(r.rotate_now(), Ok(1));
    assert_eq!(r.rotate_now(), Ok(2));
    let (id, key) = r.store().current();
    assert_eq!(id, 2);
    assert_eq!(key.len(), KEY_BYTES);
    assert_ne!(key, material(0));
    assert_eq!(r.store().by_id(0), Err(KeyError::GenerationNotFound));
    assert_eq!(r.store().active_count(), 1);
}

#[test]
fn shared_store_rotates_and_reads() {
    assert_eq!(multithread_init(), Ok(()));
    let s = SharedKeyStore::new(RotatingKeyStore::new(material(0), 1));
    assert_eq!(s.current(), (0, material(0)));
    assert_eq!(s.rotate(material(5)), Ok(1));
    assert_eq!(s.rotate(vec![5u8; 2]), Err(KeyError::EntropyError));
    assert_eq!(s.current(), (1, material(5)));
    assert_eq!(s.by_id(0), Ok(material(0)));
    assert_eq!(s.rotate_now(), Ok(2));
    assert_eq!(s.by_id(0), Err(KeyError::GenerationNotFound));
    assert_eq!(s.current().0, 2);
}
