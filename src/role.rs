use vstd::prelude::*;

use crate::bytes::bytes_equal;

verus! {

/// The closed set of authorization levels, ordered `Member < Admin < Owner`.
#[derive(Clone, Copy, Debug, PartialEq, Eq, Structural)]
pub enum Role {
    Member,
    Admin,
    Owner,
}

impl Role {
    /// Position of the role in the total order.
    pub open spec fn rank(self) -> nat {
        match self {
            Role::Member => 0,
            Role::Admin => 1,
            Role::Owner => 2,
        }
    }

    /// `self` is at least as privileged as `required`.
    pub open spec fn covers(self, required: Role) -> bool {
        self.rank() >= required.rank()
    }

    pub fn level(&self) -> (r: u8)
        ensures
            r as nat == self.rank(),
    {
        match self {
            Role::Member => 0,
            Role::Admin => 1,
            Role::Owner => 2,
        }
    }

    /// Whether this role meets a requirement of `required`.
    pub fn is_sufficient_for(&self, required: Role) -> (r: bool)
        ensures
            r == self.covers(required),
    {
        self.level() >= required.level()
    }

    /// The role named by `text` (`member`, `admin` or `owner`, lower case).
    pub fn parse(text: &[u8]) -> (r: Option<Role>)
        ensures
            r == role_named(text@),
    {
        if bytes_equal(text, member_text().as_slice()) {
            Some(Role::Member)
        } else if bytes_equal(text, admin_text().as_slice()) {
            Some(Role::Admin)
        } else if bytes_equal(text, owner_text().as_slice()) {
            Some(Role::Owner)
        } else {
            None
        }
    }
}

/// `member`
pub open spec fn member_name() -> Seq<u8> {
    seq![109u8, 101u8, 109u8, 98u8, 101u8, 114u8]
}

/// `admin`
pub open spec fn admin_name() -> Seq<u8> {
    seq![97u8, 100u8, 109u8, 105u8, 110u8]
}

/// `owner`
pub open spec fn owner_name() -> Seq<u8> {
    seq![111u8, 119u8, 110u8, 101u8, 114u8]
}

pub open spec fn role_named(text: Seq<u8>) -> Option<Role> {
    if text == member_name() {
        Some(Role::Member)
    } else if text == admin_name() {
        Some(Role::Admin)
    } else if text == owner_name() {
        Some(Role::Owner)
    } else {
        None
    }
}

fn member_text() -> (r: Vec<u8>)
    ensures
        r@ == member_name(),
{
    let r: Vec<u8> = vec![109u8, 101u8, 109u8, 98u8, 101u8, 114u8];
    assert(r@ =~= member_name());
    r
}

fn admin_text() -> (r: Vec<u8>)
    ensures
        r@ == admin_name(),
{
    let r: Vec<u8> = vec![97u8, 100u8, 109u8, 105u8, 110u8];
    assert(r@ =~= admin_name());
    r
}

fn owner_text() -> (r: Vec<u8>)
    ensures
        r@ == owner_name(),
{
    let r: Vec<u8> = vec![111u8, 119u8, 110u8, 101u8, 114u8];
    assert(r@ =~= owner_name());
    r
}

/// The role order is total: of any two roles, one covers the other.
pub proof fn role_order_is_total(a: Role, b: Role)
    ensures
        a.covers(b) || b.covers(a),
        a.covers(b) && b.covers(a) ==> a == b,
{
}

/// The role order is transitive.
pub proof fn role_order_is_transitive(a: Role, b: Role, c: Role)
    requires
        a.covers(b),
        b.covers(c),
    ensures
        a.covers(c),
{
}

/// A role at least as high as one that meets a requirement meets it too.
pub proof fn higher_role_stays_sufficient(a: Role, b: Role, required: Role)
    requires
        a.covers(required),
        b.covers(a),
    ensures
        b.covers(required),
{
}

} // verus!
