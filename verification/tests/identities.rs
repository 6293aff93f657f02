use anchor_lang::prelude::Pubkey;
use bundl::identity::Identity;
use bundl::state::TokenAccount;

const AUTHORITY: &str = "BTFsHVsT8V9gXrgDNKdCw574dR9X8hom9KWsiKBvjbSi";
const AUTHORITY_BYTES: [u8; 32] = [
    155, 78, 199, 202, 228, 79, 120, 121, 109, 84, 114, 94, 232, 179, 146, 179, 51, 73, 208, 160,
    35, 29, 135, 162, 178, 175, 30, 107, 231, 91, 198, 187,
];

#[test]
fn base58_text_gives_its_bytes() {
    assert_eq!(Identity::from_base58(AUTHORITY), Some(Identity::new(AUTHORITY_BYTES)));
    assert_eq!(
        Identity::from_base58("11111111111111111111111111111111"),
        Some(Identity::new([0; 32]))
    );
}

#[test]
fn base58_agrees_with_the_key_type() {
    let id = Identity::from_base58(AUTHORITY).unwrap();
    assert_eq!(Pubkey::new_from_array(id.bytes).to_string(), AUTHORITY);
    let text = Pubkey::new_from_array([77; 32]).to_string();
    assert_eq!(Identity::from_base58(&text), Some(Identity::new([77; 32])));
}

#[test]
fn text_that_is_no_key_gives_none() {
    assert_eq!(Identity::from_base58(""), None);
    assert_eq!(Identity::from_base58("1111"), None);
    assert_eq!(Identity::from_base58("BTFsHVsT8V9gXrgDNKdCw574dR9X8hom9KWsiKBvjbS0"), None);
    assert_eq!(Identity::from_base58("BTFsHVsT8V9gXrgDNKdCw574dR9X8hom9KWsiKBvjbSiBTFs"), None);
    assert_eq!(Identity::from_base58("not a key"), None);
}

#[test]
fn same_compares_all_bytes() {
    let a = Identity::new(AUTHORITY_BYTES);
    assert!(a.same(&Identity::new(AUTHORITY_BYTES)));
    for i in 0..32 {
        let mut other = AUTHORITY_BYTES;
        other[i] ^= 1;
        assert!(!a.same(&Identity::new(other)));
    }
}

#[test]
fn delegate_is_compared_by_identity() {
    let k = Identity::new([2; 32]);
    let mut account = TokenAccount { key: k, amount: 1, delegate: Some(k), delegated_amount: 1 };
    assert!(account.is_delegated_to(&k));
    assert!(!account.is_delegated_to(&Identity::new([3; 32])));
    account.delegate = None;
    assert!(!account.is_delegated_to(&k));
}
