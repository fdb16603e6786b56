use section_keys::register::{
    Address, AuthorisationKind, CmdError, DataAuthKind, Index, QueryResponse, RegisterRead,
    RegisterWrite, User,
};
use sn_data_types::register::Register;
use sn_data_types::PublicKey;
use std::collections::BTreeSet;
use threshold_crypto::SecretKey;
use xor_name::XorName;

fn public(byte: u8) -> Address {
    Address::Public { name: XorName([byte; 32]), tag: 7 }
}

fn private(byte: u8) -> Address {
    Address::Private { name: XorName([byte; 32]), tag: 9 }
}

fn key() -> PublicKey {
    PublicKey::Bls(SecretKey::random().public_key())
}

fn reads(address: Address) -> Vec<RegisterRead> {
    vec![
        RegisterRead::Get(address),
        RegisterRead::GetRange { address, range: (Index::FromStart(0), Index::FromEnd(0)) },
        RegisterRead::GetLastEntry(address),
        RegisterRead::GetPublicPolicy(address),
        RegisterRead::GetPrivatePolicy(address),
        RegisterRead::GetUserPermissions { address, user: User::Anyone },
        RegisterRead::GetOwner(address),
    ]
}

#[test]
fn address_gives_its_name_and_kind() {
    assert!(public(1).is_public());
    assert!(!private(1).is_public());
    assert_eq!(public(3).name(), XorName([3; 32]));
    assert_eq!(private(4).name(), XorName([4; 32]));
}

#[test]
fn reads_are_classified_by_the_register_kind() {
    for read in reads(public(1)) {
        assert_eq!(read.authorisation_kind(), AuthorisationKind::Data(DataAuthKind::PublicRead));
    }
    for read in reads(private(1)) {
        assert_eq!(read.authorisation_kind(), AuthorisationKind::Data(DataAuthKind::PrivateRead));
    }
}

#[test]
fn reads_are_routed_to_the_register_name() {
    for read in reads(public(5)) {
        assert_eq!(read.dst_address(), XorName([5; 32]));
    }
    for read in reads(private(6)) {
        assert_eq!(read.dst_address(), XorName([6; 32]));
    }
    let read = RegisterRead::GetUserPermissions { address: private(8), user: User::Key(key()) };
    assert_eq!(read.dst_address(), XorName([8; 32]));
}

#[test]
fn failed_read_is_reported_by_its_kind() {
    let all = reads(public(1));
    assert_eq!(all[0].error("e"), QueryResponse::GetRegister("e"));
    assert_eq!(all[1].error("e"), QueryResponse::GetRegisterRange("e"));
    assert_eq!(all[2].error("e"), QueryResponse::GetRegisterLastEntry("e"));
    assert_eq!(all[3].error("e"), QueryResponse::GetRegisterPublicPolicy("e"));
    assert_eq!(all[4].error("e"), QueryResponse::GetRegisterPrivatePolicy("e"));
    assert_eq!(all[5].error("e"), QueryResponse::GetRegisterUserPermissions("e"));
    assert_eq!(all[6].error(17u8), QueryResponse::GetRegisterOwner(17u8));
}

#[test]
fn reads_are_shown_by_kind() {
    let labels: Vec<String> = reads(private(2)).iter().map(|read| read.label()).collect();
    assert_eq!(
        labels,
        vec![
            "RegisterRead::GetRegister",
            "RegisterRead::GetRegisterRange",
            "RegisterRead::GetRegisterLastEntry",
            "RegisterRead::GetRegisterPublicPolicy",
            "RegisterRead::GetRegisterPrivatePolicy",
            "RegisterRead::GetUserPermissions",
            "RegisterRead::GetOwner",
        ]
    );
}

#[test]
fn writes_are_always_writes() {
    let owner = key();
    let register = Register::new_public(owner, XorName([1; 32]), 3, None);
    let writes = vec![RegisterWrite::New(register), RegisterWrite::Delete(private(2))];
    for write in &writes {
        assert_eq!(write.authorisation_kind(), AuthorisationKind::Data(DataAuthKind::Write));
        assert_eq!(write.error("failed"), CmdError::Data("failed"));
    }
}

#[test]
fn writes_are_routed_to_the_register_name() {
    let owner = key();
    let mut register = Register::new_private(owner, XorName([11; 32]), 3, None);
    let (_, op) = register.write(b"entry".to_vec(), BTreeSet::new()).expect("the owner may write");
    assert_eq!(RegisterWrite::Edit(op).dst_address(), XorName([11; 32]));
    assert_eq!(RegisterWrite::New(register).dst_address(), XorName([11; 32]));
    let public_register = Register::new_public(owner, XorName([12; 32]), 3, None);
    assert_eq!(RegisterWrite::New(public_register).dst_address(), XorName([12; 32]));
    assert_eq!(RegisterWrite::Delete(private(13)).dst_address(), XorName([13; 32]));
    assert_eq!(RegisterWrite::Delete(public(14)).dst_address(), XorName([14; 32]));
}

#[test]
fn only_a_new_register_names_an_owner() {
    let owner = key();
    let mut register = Register::new_public(owner, XorName([1; 32]), 3, None);
    let (_, op) = register.write(b"entry".to_vec(), BTreeSet::new()).expect("the owner may write");
    assert_eq!(RegisterWrite::New(register).owner(), Some(owner));
    assert_eq!(RegisterWrite::Edit(op).owner(), None);
    assert_eq!(RegisterWrite::Delete(private(2)).owner(), None);
}

#[test]
fn writes_are_shown_by_kind() {
    let owner = key();
    let mut register = Register::new_public(owner, XorName([1; 32]), 3, None);
    let (_, op) = register.write(b"entry".to_vec(), BTreeSet::new()).expect("the owner may write");
    assert_eq!(RegisterWrite::New(register).label(), "RegisterWrite::NewRegister");
    assert_eq!(RegisterWrite::Edit(op).label(), "RegisterWrite::EditRegister");
    assert_eq!(RegisterWrite::Delete(public(2)).label(), "RegisterWrite::DeleteRegister");
}
