use kitties::dna::{combine_dna, combine_payloads};
use kitties::entropy::random_value;
use kitties::registry::{Error, Event, Kitty, Module};

const SEED: [u8; 32] = [7u8; 32];

fn expected_hash(seed: &[u8; 32], sender: u64, extrinsic_index: Option<u32>) -> [u8; 16] {
    let mut bytes: Vec<u8> = seed.to_vec();
    bytes.extend_from_slice(&sender.to_le_bytes());
    match extrinsic_index {
        None => bytes.push(0),
        Some(i) => {
            bytes.push(1);
            bytes.extend_from_slice(&i.to_le_bytes());
        }
    }
    sp_io::hashing::blake2_128(&bytes)
}

#[test]
fn create_kitty_works() {
    let mut m = Module::new();
    assert_eq!(m.create(1, SEED, None), Ok(()));
    let lock_event = Event::Created(1, 0);
    assert!(m.events().iter().any(|a| *a == lock_event));
}

#[test]
fn combine_dna_is_bit_exact() {
    assert_eq!(combine_dna(0xFF, 0x00, 0x0F), 0x0F);
    assert_eq!(combine_dna(0b10101010, 0b01010101, 0b11110000), 0b10100101);
    assert_eq!(combine_dna(0x12, 0x34, 0x00), 0x34);
    assert_eq!(combine_dna(0x12, 0x34, 0xFF), 0x12);
}

#[test]
fn combine_payloads_per_byte() {
    let a = [0xFFu8; 16];
    let b = [0x00u8; 16];
    let mut sel = [0u8; 16];
    for (i, s) in sel.iter_mut().enumerate() {
        *s = i as u8;
    }
    let r = combine_payloads(&a, &b, &sel);
    for i in 0..16 {
        assert_eq!(r[i], i as u8);
    }
}

#[test]
fn random_value_hashes_seed_sender_and_index() {
    assert_eq!(random_value(&1, &SEED, None), expected_hash(&SEED, 1, None));
    assert_eq!(random_value(&9, &SEED, Some(3)), expected_hash(&SEED, 9, Some(3)));
    assert_ne!(random_value(&1, &SEED, None), random_value(&2, &SEED, None));
}

#[test]
fn create_allocates_ids_in_order() {
    let mut m = Module::new();
    assert_eq!(m.kitties_count(), 0);
    assert_eq!(m.create(1, SEED, None), Ok(()));
    assert_eq!(m.kitties_count(), 1);
    assert_eq!(m.create(2, SEED, Some(1)), Ok(()));
    assert_eq!(m.kitties_count(), 2);
    assert_eq!(m.kitty_owner(0), Some(1));
    assert_eq!(m.kitty_owner(1), Some(2));
    assert_eq!(m.kitties(0), Some(Kitty(expected_hash(&SEED, 1, None))));
    assert_eq!(m.kitties(1), Some(Kitty(expected_hash(&SEED, 2, Some(1)))));
    assert_eq!(m.kitty_parent(0), None);
    assert_eq!(m.get_parents(0), Vec::<u32>::new());
    assert_eq!(m.get_brothers(0), Vec::<u32>::new());
    assert_eq!(m.events(), &vec![Event::Created(1, 0), Event::Created(2, 1)]);
}

#[test]
fn create_with_dna_stores_payload() {
    let mut m = Module::new();
    assert_eq!(m.create_with_dna(5, [3u8; 16]), Ok(()));
    assert_eq!(m.kitties(0), Some(Kitty([3u8; 16])));
    assert_eq!(m.kitties(1), None);
    assert_eq!(m.owner_kitty(&5, 0), Some(0));
    assert_eq!(m.owner_kitty(&6, 0), None);
}

#[test]
fn end_to_end_create_and_breed() {
    let mut m = Module::new();
    assert_eq!(m.create(1, SEED, None), Ok(()));
    assert_eq!(m.create(2, SEED, None), Ok(()));
    assert_eq!(m.kitty_owner(0), Some(1));
    assert_eq!(m.kitty_owner(1), Some(2));
    assert_eq!(m.breed(1, 0, 1, SEED, None), Ok(()));
    assert_eq!(m.kitties_count(), 3);
    assert_eq!(m.kitty_owner(2), Some(1));
    assert_eq!(m.kitty_parent(2), Some((1, 0)));
    assert_eq!(m.get_parents(2), vec![1, 0]);
    assert_eq!(m.kitty_wife(1, 0), Some(0));
    assert_eq!(m.kitty_wife(0, 1), Some(1));
    assert_eq!(m.kitty_wife(0, 2), None);
    assert_eq!(m.children(1, 2), Some(2));
    assert_eq!(m.children(0, 2), Some(2));
    assert_eq!(m.children(2, 0), None);
    assert_eq!(m.get_all_children(0), vec![2]);
    assert_eq!(m.get_all_children(1), vec![2]);
    assert_eq!(m.get_brothers(2), vec![2, 2]);
    assert_eq!(m.get_all_kitties(&1), vec![0, 2]);
    assert_eq!(m.get_all_kitties(&2), vec![1]);
    assert_eq!(m.events().last(), Some(&Event::Created(1, 2)));
}

#[test]
fn breed_combines_parent_payloads() {
    let mut m = Module::new();
    assert_eq!(m.create_with_dna(1, [0xF0u8; 16]), Ok(()));
    assert_eq!(m.create_with_dna(1, [0x0Fu8; 16]), Ok(()));
    assert_eq!(m.do_breed_with_selector(&3, 0, 1, &[0xCCu8; 16]), Ok(2));
    // Larger id first: dna1 is kitty 1's payload.
    assert_eq!(m.kitties(2), Some(Kitty([0x0Cu8 | 0x30u8; 16])));
    assert_eq!(m.kitty_owner(2), Some(3));
}

#[test]
fn breed_order_of_parents_is_canonical() {
    let mut m1 = Module::new();
    let mut m2 = Module::new();
    for m in [&mut m1, &mut m2] {
        assert_eq!(m.create(1, SEED, None), Ok(()));
        assert_eq!(m.create(2, SEED, None), Ok(()));
    }
    assert_eq!(m1.do_breed(&1, 0, 1, &SEED, Some(2)), Ok(2));
    assert_eq!(m2.do_breed(&1, 1, 0, &SEED, Some(2)), Ok(2));
    assert_eq!(m1.kitty_parent(2), Some((1, 0)));
    assert_eq!(m2.kitty_parent(2), Some((1, 0)));
    assert_eq!(m1.kitties(2), m2.kitties(2));
}

#[test]
fn breed_with_itself_fails() {
    let mut m = Module::new();
    assert_eq!(m.create(1, SEED, None), Ok(()));
    assert_eq!(m.breed(1, 0, 0, SEED, None), Err(Error::RequireDifferentParent));
    assert_eq!(m.kitties_count(), 1);
    assert_eq!(m.kitty_parent(0), None);
    assert_eq!(m.get_all_kitties(&1), vec![0]);
    assert_eq!(m.events().len(), 1);
}

#[test]
fn breed_of_missing_parent_fails() {
    let mut m = Module::new();
    assert_eq!(m.create(1, SEED, None), Ok(()));
    assert_eq!(m.breed(1, 0, 5, SEED, None), Err(Error::KittyIdNotExist));
    assert_eq!(m.breed(1, 5, 0, SEED, None), Err(Error::KittyIdNotExist));
    assert_eq!(m.kitties_count(), 1);
}

#[test]
fn transfer_round_trip_restores_ownership() {
    let mut m = Module::new();
    assert_eq!(m.create(1, SEED, None), Ok(()));
    assert_eq!(m.create(1, SEED, None), Ok(()));
    assert_eq!(m.transfer(1, 2, 0), Ok(()));
    assert_eq!(m.kitty_owner(0), Some(2));
    assert_eq!(m.get_all_kitties(&1), vec![1]);
    assert_eq!(m.get_all_kitties(&2), vec![0]);
    assert_eq!(m.transfer(2, 1, 0), Ok(()));
    assert_eq!(m.kitty_owner(0), Some(1));
    assert_eq!(m.get_all_kitties(&1), vec![0, 1]);
    assert_eq!(m.get_all_kitties(&2), Vec::<u32>::new());
    assert_eq!(m.events().last(), Some(&Event::Transferred(2, 1, 0)));
}

#[test]
fn transfer_refusals_leave_ownership() {
    let mut m = Module::new();
    assert_eq!(m.create(1, SEED, None), Ok(()));
    assert_eq!(m.transfer(1, 2, 7), Err(Error::KittyIdNotExist));
    assert_eq!(m.transfer(3, 2, 0), Err(Error::NotKittyOwner));
    assert_eq!(m.do_transfer(&3, &2, 0), Err(Error::NotKittyOwner));
    assert_eq!(m.kitty_owner(0), Some(1));
    assert_eq!(m.get_all_kitties(&1), vec![0]);
    assert_eq!(m.events().len(), 1);
}

#[test]
fn exhausted_counter_refuses_create_and_breed() {
    let mut m = Module::with_kitties_count(u32::MAX - 2);
    assert_eq!(m.next_kitty_id(), Ok(u32::MAX - 2));
    assert_eq!(m.create(1, SEED, None), Ok(()));
    assert_eq!(m.create(1, SEED, None), Ok(()));
    assert_eq!(m.kitties_count(), u32::MAX);
    assert_eq!(m.next_kitty_id(), Err(Error::KittiesCountOverflow));
    assert_eq!(m.create(1, SEED, None), Err(Error::KittiesCountOverflow));
    assert_eq!(
        m.breed(1, u32::MAX - 2, u32::MAX - 1, SEED, None),
        Err(Error::KittiesCountOverflow)
    );
    assert_eq!(m.kitties_count(), u32::MAX);
    assert_eq!(m.kitty_owner(u32::MAX - 1), Some(1));
    assert_eq!(m.kitty_parent(u32::MAX - 1), None);
    assert_eq!(m.events().len(), 2);
}

#[test]
fn insert_kitty_records_parents_only_when_distinct() {
    let mut m = Module::new();
    m.insert_kitty(&4, 0, Kitty([1u8; 16]), 0, 0);
    m.insert_kitty(&4, 1, Kitty([2u8; 16]), 0, 0);
    m.insert_kitty(&5, 2, Kitty([3u8; 16]), 0, 1);
    assert_eq!(m.kitties_count(), 3);
    assert_eq!(m.kitty_parent(0), None);
    assert_eq!(m.kitty_parent(2), Some((0, 1)));
    assert_eq!(m.get_all_children(1), vec![2]);
    assert_eq!(m.get_all_kitties(&4), vec![0, 1]);
    assert_eq!(m.get_all_kitties(&5), vec![2]);
}
