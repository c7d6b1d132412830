//! Identity values: constructors and equality.

use namespaces::Kind;
use namespaces::Namespace;

#[test]
fn constructors() {
    assert_eq!(Namespace::cgroup(5), Namespace::new(Kind::Cgroup, 5));
    assert_eq!(Namespace::ipc(5), Namespace::new(Kind::Ipc, 5));
    assert_eq!(Namespace::mnt(5), Namespace::new(Kind::Mnt, 5));
    assert_eq!(Namespace::net(5), Namespace::new(Kind::Net, 5));
    assert_eq!(Namespace::pid(5), Namespace::new(Kind::Pid, 5));
    assert_eq!(Namespace::time(5), Namespace::new(Kind::Time, 5));
    assert_eq!(Namespace::user(5), Namespace::new(Kind::User, 5));
    assert_eq!(Namespace::uts(5), Namespace::new(Kind::Uts, 5));
}

#[test]
fn equality() {
    // equal kind and inum compare equal
    assert_eq!(Namespace::new(Kind::Pid, 42), Namespace::new(Kind::Pid, 42));
    // a differing inum makes them unequal
    assert_ne!(Namespace::new(Kind::Pid, 42), Namespace::new(Kind::Pid, 43));
    // a differing kind makes them unequal
    assert_ne!(Namespace::new(Kind::Pid, 42), Namespace::new(Kind::Net, 42));
}

#[test]
fn diagnostic_text() {
    assert_eq!(Namespace::net(42).to_text(), "inum=42 kind=net");
    assert_eq!(
        Namespace::new(Kind::Cgroup, 4026531835).to_text(),
        "inum=4026531835 kind=cgroup"
    );
}

#[test]
fn kind_check() {
    let ns = Namespace::mnt(9);
    assert!(ns.is_kind(Kind::Mnt));
    assert!(!ns.is_kind(Kind::Pid));
}
