use zkpayroll::encoding::{push_bytes, push_i128, push_text, push_u32, push_u64};
use zkpayroll::host::{Abort, Address, BytesN, Invocation, Symbol};
use zkpayroll::settlement_window::{DataEntry, DataKey};
use zkpayroll::storage::Storage;

#[test]
fn symbols_spell_short_names() {
    let symbol = Symbol::new(b"USDC_9").unwrap();
    assert_eq!(symbol.text[..6], *b"USDC_9");
    assert_eq!(symbol.text[6..], [0; 26]);
    assert_eq!(Symbol::new(b""), Some(Symbol::empty()));
    assert!(Symbol::new(&[b'a'; 32]).is_some());
    assert_eq!(Symbol::new(&[b'a'; 33]), None);
    for bad in [&b"a b"[..], b"a-b", b"\0", b"/", b":", b"@", b"[", b"`", b"{"] {
        assert_eq!(Symbol::new(bad), None);
    }
    for good in [&b"0"[..], b"9", b"A", b"Z", b"a", b"z", b"_"] {
        assert!(Symbol::new(good).is_some());
    }
    assert!(symbol.same(&symbol));
    assert!(!symbol.same(&Symbol::empty()));
}

#[test]
fn addresses_and_bytes_compare() {
    let a = Address { strkey: [1; 56] };
    let mut strkey = [1; 56];
    strkey[55] = 2;
    let b = Address { strkey };
    assert!(a.same(&a));
    assert!(!a.same(&b));
    let x = BytesN::from_array([3u8; 32]);
    assert!(x.same(&BytesN { bytes: [3; 32] }));
    assert!(!x.same(&BytesN { bytes: [4; 32] }));
    let call = Invocation { timestamp: 0, paused: false, authorizers: vec![b] };
    assert!(call.is_authorized_by(&b));
    assert!(!call.is_authorized_by(&a));
}

#[test]
fn aborts_have_messages() {
    let messages: Vec<&str> = [
        Abort::AlreadyInitialized,
        Abort::NotInitialized,
        Abort::Paused,
        Abort::Unauthorized,
        Abort::RunNotFound,
        Abort::ReviewAlreadyOpen,
        Abort::ReviewNotFound,
        Abort::ReviewAlreadyResolved,
        Abort::EmptyReason,
    ]
    .iter()
    .map(|abort| abort.message())
    .collect();
    assert_eq!(
        messages,
        vec![
            "Already initialized",
            "Not initialized",
            "Payroll is paused",
            "Unauthorized",
            "Run not found",
            "Review already open for this run",
            "Review not found",
            "Review already resolved",
            "Resolution reason must not be empty",
        ]
    );
}

#[test]
fn guards_ask_in_order() {
    let admin = Address { strkey: [1; 56] };
    let call = Invocation { timestamp: 0, paused: true, authorizers: vec![admin] };
    assert_eq!(call.check_pause(true), Err(Abort::Paused));
    assert_eq!(call.check_pause(false), Ok(()));
    assert_eq!(call.check_admin(None), Err(Abort::NotInitialized));
    assert_eq!(call.check_admin(Some(admin)), Ok(()));
    assert_eq!(
        call.check_admin(Some(Address { strkey: [2; 56] })),
        Err(Abort::NotAuthorized)
    );
    assert_eq!(call.check_initialize(true, &admin), Err(Abort::AlreadyInitialized));
    assert_eq!(call.check_initialize(false, &admin), Ok(()));
    assert_eq!(
        call.check_initialize(false, &Address { strkey: [2; 56] }),
        Err(Abort::NotAuthorized)
    );
}

#[test]
fn storage_is_a_map() {
    let mut storage: Storage<DataKey, DataEntry> = Storage::new();
    let (a, b) = (DataKey::PeriodSequence(1), DataKey::PeriodSequence(2));
    assert!(!storage.has(&a));
    storage.set(a, DataEntry::Sequence(1));
    storage.set(b, DataEntry::Sequence(2));
    storage.set(a, DataEntry::Sequence(3));
    assert_eq!(storage.get(&a), Some(DataEntry::Sequence(3)));
    assert_eq!(storage.get(&b), Some(DataEntry::Sequence(2)));
    storage.remove(&a);
    assert_eq!(storage.get(&a), None);
    assert!(storage.has(&b));
    storage.remove(&a);
    assert_eq!(storage.get(&b), Some(DataEntry::Sequence(2)));
}

#[test]
fn encodings_are_little_endian() {
    let mut out: Vec<u8> = vec![9];
    push_u32(&mut out, 0x01020304);
    assert_eq!(out, vec![9, 4, 3, 2, 1]);
    let mut out: Vec<u8> = Vec::new();
    push_u64(&mut out, u64::MAX - 1);
    assert_eq!(out, (u64::MAX - 1).to_le_bytes().to_vec());
    for value in [0i128, 1, -1, i128::MAX, i128::MIN, 256, -256] {
        let mut out: Vec<u8> = Vec::new();
        push_i128(&mut out, value);
        assert_eq!(out, value.to_le_bytes().to_vec());
    }
    let mut out: Vec<u8> = Vec::new();
    push_text(&mut out, "az_09");
    push_bytes(&mut out, &[0, 255]);
    assert_eq!(out, b"az_09\x00\xff".to_vec());
}
