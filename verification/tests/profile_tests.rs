use gaol::platform;
use gaol::profile::{
    AddressPattern, Operation, OperationSupport, OperationSupportLevel, PathPattern, Profile,
};

#[test]
fn support_levels_per_variant() {
    assert_eq!(
        Operation::FileReadAll(PathPattern::Subpath(b"/tmp".to_vec())).support(),
        OperationSupportLevel::CanBeAllowed
    );
    assert_eq!(
        Operation::FileReadMetadata(PathPattern::Literal(b"/etc/passwd".to_vec())).support(),
        OperationSupportLevel::CanBeAllowed
    );
    assert_eq!(
        Operation::NetworkOutbound(AddressPattern::All).support(),
        OperationSupportLevel::CanBeAllowed
    );
    assert_eq!(
        Operation::NetworkOutbound(AddressPattern::Tcp(80)).support(),
        OperationSupportLevel::CannotBeAllowedPrecisely
    );
    assert_eq!(
        Operation::NetworkOutbound(AddressPattern::LocalSocket(b"/run/sock".to_vec())).support(),
        OperationSupportLevel::CannotBeAllowedPrecisely
    );
    assert_eq!(
        Operation::SystemInfoRead.support(),
        OperationSupportLevel::AlwaysAllowed
    );
    assert_eq!(
        Operation::PlatformSpecific(platform::Operation { raw_code: 7 }).support(),
        OperationSupportLevel::NeverAllowed
    );
}

#[test]
fn can_be_allowed_singleton_accepted() {
    let op = Operation::FileReadAll(PathPattern::Subpath(b"/tmp".to_vec()));
    let profile = Profile::new(vec![op]).unwrap();
    let ops = profile.allowed_operations();
    assert_eq!(ops.len(), 1);
    match &ops[0] {
        Operation::FileReadAll(PathPattern::Subpath(path)) => {
            assert_eq!(path, &b"/tmp".to_vec());
        }
        _ => panic!("wrong operation stored"),
    }
}

#[test]
fn never_allowed_singleton_accepted() {
    let op = Operation::PlatformSpecific(platform::Operation { raw_code: 42 });
    let profile = Profile::new(vec![op]).unwrap();
    let ops = profile.allowed_operations();
    assert_eq!(ops.len(), 1);
    match &ops[0] {
        Operation::PlatformSpecific(inner) => assert_eq!(inner.raw_code, 42),
        _ => panic!("wrong operation stored"),
    }
}

#[test]
fn network_all_singleton_accepted() {
    let op = Operation::NetworkOutbound(AddressPattern::All);
    let profile = Profile::new(vec![op]).unwrap();
    assert!(matches!(
        profile.allowed_operations(),
        [Operation::NetworkOutbound(AddressPattern::All)]
    ));
}

#[test]
fn metadata_read_profile_accepted() {
    // A profile allowing only metadata reads under /tmp, on a platform that
    // reports `CanBeAllowed` for that operation.
    let op = Operation::FileReadMetadata(PathPattern::Subpath(b"/tmp".to_vec()));
    let profile = Profile::new(vec![op]).unwrap();
    let ops = profile.allowed_operations();
    assert_eq!(ops.len(), 1);
    assert!(matches!(&ops[0], Operation::FileReadMetadata(PathPattern::Subpath(p)) if p == &b"/tmp".to_vec()));
}

#[test]
fn cannot_be_allowed_precisely_singleton_rejected() {
    let op = Operation::NetworkOutbound(AddressPattern::Tcp(443));
    assert!(Profile::new(vec![op]).is_err());
    let op = Operation::NetworkOutbound(AddressPattern::LocalSocket(b"/run/x".to_vec()));
    assert!(Profile::new(vec![op]).is_err());
}

#[test]
fn always_allowed_singleton_rejected() {
    assert!(Profile::new(vec![Operation::SystemInfoRead]).is_err());
}

#[test]
fn mixed_list_rejected_entirely() {
    let acceptable = Operation::FileReadAll(PathPattern::Subpath(b"/tmp".to_vec()));
    let unacceptable = Operation::SystemInfoRead;
    assert!(Profile::new(vec![acceptable.clone(), unacceptable.clone()]).is_err());
    assert!(Profile::new(vec![unacceptable, acceptable]).is_err());
}

#[test]
fn empty_list_accepted() {
    let profile = Profile::new(Vec::new()).unwrap();
    assert!(profile.allowed_operations().is_empty());
}

#[test]
fn order_preserved() {
    let first = Operation::FileReadAll(PathPattern::Literal(b"/etc/hosts".to_vec()));
    let second = Operation::NetworkOutbound(AddressPattern::All);
    let profile = Profile::new(vec![first, second]).unwrap();
    let ops = profile.allowed_operations();
    assert_eq!(ops.len(), 2);
    assert!(matches!(&ops[0], Operation::FileReadAll(PathPattern::Literal(p)) if p == &b"/etc/hosts".to_vec()));
    assert!(matches!(&ops[1], Operation::NetworkOutbound(AddressPattern::All)));
}
