//! The capability model: a fixed-width set of permission flags.

use vstd::prelude::*;

verus! {

/// One capability: authorisation for one category of action.
#[derive(Clone, Copy, Debug, PartialEq, Eq, Structural)]
pub enum Permission {
    SignSelfUp,
    SignOthersUp,
    VerifyAttendance,
    CrudEvents,
    CrudUsers,
    ViewPhotos,
    ImportCsvs,
    ExportCsvs,
    CrudAdmins,
    ViewSensitiveDetails,
    RunOnboarding,
}

impl Permission {
    /// The single bit that stands for this capability.
    pub open spec fn mask(self) -> u16 {
        match self {
            Permission::SignSelfUp => 0x0001,
            Permission::SignOthersUp => 0x0002,
            Permission::VerifyAttendance => 0x0004,
            Permission::CrudEvents => 0x0008,
            Permission::CrudUsers => 0x0010,
            Permission::ViewPhotos => 0x0020,
            Permission::ImportCsvs => 0x0040,
            Permission::ExportCsvs => 0x0080,
            Permission::CrudAdmins => 0x0100,
            Permission::ViewSensitiveDetails => 0x0200,
            Permission::RunOnboarding => 0x0400,
        }
    }
}

/// The bit of the capability to sign oneself up to an event.
pub const SIGN_SELF_UP: u16 = 0x0001;

/// The bit of the capability to sign other people up to an event.
pub const SIGN_OTHERS_UP: u16 = 0x0002;

/// The bit of the capability to verify that someone attended an event.
pub const VERIFY_ATTENDANCE: u16 = 0x0004;

/// The bit of the capability to create, change and delete events.
pub const CRUD_EVENTS: u16 = 0x0008;

/// The bit of the capability to create, change and delete users.
pub const CRUD_USERS: u16 = 0x0010;

/// The bit of the capability to view the photos of an event.
pub const VIEW_PHOTOS: u16 = 0x0020;

/// The bit of the capability to import data from CSV files.
pub const IMPORT_CSVS: u16 = 0x0040;

/// The bit of the capability to export data to CSV files.
pub const EXPORT_CSVS: u16 = 0x0080;

/// The bit of the capability to create, change and delete administrators.
pub const CRUD_ADMINS: u16 = 0x0100;

/// The bit of the capability to view the sensitive details of people.
pub const VIEW_SENSITIVE_DETAILS: u16 = 0x0200;

/// The bit of the capability to run the first-time set-up.
pub const RUN_ONBOARDING: u16 = 0x0400;

/// Every bit that stands for a capability.
pub const ALL_BITS: u16 = 0x07ff;

/// A set of capabilities, held as a bit set of fixed width. A value never
/// holds a bit that stands for no capability.
#[derive(Clone, Copy, Debug, PartialEq, Eq, Structural)]
pub struct PermissionsTarget {
    bits: u16,
}

impl View for PermissionsTarget {
    type V = Set<Permission>;

    /// The capabilities whose bit is set.
    open spec fn view(&self) -> Set<Permission> {
        Set::new(|p: Permission| self.has(p))
    }
}

/// `m` is the bit of one capability.
pub open spec fn is_mask(m: u16) -> bool {
    ||| m == 0x0001
    ||| m == 0x0002
    ||| m == 0x0004
    ||| m == 0x0008
    ||| m == 0x0010
    ||| m == 0x0020
    ||| m == 0x0040
    ||| m == 0x0080
    ||| m == 0x0100
    ||| m == 0x0200
    ||| m == 0x0400
}

proof fn lemma_mask_tests(a: u16, b: u16, m: u16)
    by (bit_vector)
    requires
        is_mask(m),
    ensures
        ((a | b) & m == m) == (a & m == m || b & m == m),
        ((a & b) & m == m) == (a & m == m && b & m == m),
        ((a & !b) & m == m) == (a & m == m && b & m != m),
        (0u16 & m) != m,
        (0x07ffu16 & m) == m,
        ((a & 0x07ffu16) & m == m) == (a & m == m),
        (a & b == b) ==> (b & m == m ==> a & m == m),
{
}

proof fn lemma_mask_distinct(m: u16, n: u16)
    by (bit_vector)
    requires
        is_mask(m),
        is_mask(n),
    ensures
        (m & n == n) == (m == n),
{
}

proof fn lemma_contains_bitwise(a: u16, b: u16)
    by (bit_vector)
    requires
        b & !0x07ffu16 == 0,
    ensures
        (a & b == b) == ({
            &&& (b & 0x0001 == 0x0001 ==> a & 0x0001 == 0x0001)
            &&& (b & 0x0002 == 0x0002 ==> a & 0x0002 == 0x0002)
            &&& (b & 0x0004 == 0x0004 ==> a & 0x0004 == 0x0004)
            &&& (b & 0x0008 == 0x0008 ==> a & 0x0008 == 0x0008)
            &&& (b & 0x0010 == 0x0010 ==> a & 0x0010 == 0x0010)
            &&& (b & 0x0020 == 0x0020 ==> a & 0x0020 == 0x0020)
            &&& (b & 0x0040 == 0x0040 ==> a & 0x0040 == 0x0040)
            &&& (b & 0x0080 == 0x0080 ==> a & 0x0080 == 0x0080)
            &&& (b & 0x0100 == 0x0100 ==> a & 0x0100 == 0x0100)
            &&& (b & 0x0200 == 0x0200 ==> a & 0x0200 == 0x0200)
            &&& (b & 0x0400 == 0x0400 ==> a & 0x0400 == 0x0400)
        }),
{
}

proof fn lemma_zero_bitwise(b: u16)
    by (bit_vector)
    requires
        b & !0x07ffu16 == 0,
    ensures
        (b == 0) == ({
            &&& b & 0x0001 != 0x0001
            &&& b & 0x0002 != 0x0002
            &&& b & 0x0004 != 0x0004
            &&& b & 0x0008 != 0x0008
            &&& b & 0x0010 != 0x0010
            &&& b & 0x0020 != 0x0020
            &&& b & 0x0040 != 0x0040
            &&& b & 0x0080 != 0x0080
            &&& b & 0x0100 != 0x0100
            &&& b & 0x0200 != 0x0200
            &&& b & 0x0400 != 0x0400
        }),
{
}

proof fn lemma_bits_extensional(a: u16, b: u16)
    by (bit_vector)
    requires
        a & !0x07ffu16 == 0,
        b & !0x07ffu16 == 0,
        (a & 0x0001 == 0x0001) == (b & 0x0001 == 0x0001),
        (a & 0x0002 == 0x0002) == (b & 0x0002 == 0x0002),
        (a & 0x0004 == 0x0004) == (b & 0x0004 == 0x0004),
        (a & 0x0008 == 0x0008) == (b & 0x0008 == 0x0008),
        (a & 0x0010 == 0x0010) == (b & 0x0010 == 0x0010),
        (a & 0x0020 == 0x0020) == (b & 0x0020 == 0x0020),
        (a & 0x0040 == 0x0040) == (b & 0x0040 == 0x0040),
        (a & 0x0080 == 0x0080) == (b & 0x0080 == 0x0080),
        (a & 0x0100 == 0x0100) == (b & 0x0100 == 0x0100),
        (a & 0x0200 == 0x0200) == (b & 0x0200 == 0x0200),
        (a & 0x0400 == 0x0400) == (b & 0x0400 == 0x0400),
    ensures
        a == b,
{
}

proof fn lemma_known_closed(a: u16, b: u16)
    by (bit_vector)
    requires
        a & !0x07ffu16 == 0,
        b & !0x07ffu16 == 0,
    ensures
        (a | b) & !0x07ffu16 == 0,
        (a & b) & !0x07ffu16 == 0,
        (a & !b) & !0x07ffu16 == 0,
{
}

proof fn lemma_truncate_known(a: u16)
    by (bit_vector)
    ensures
        (a & 0x07ffu16) & !0x07ffu16 == 0,
        0u16 & !0x07ffu16 == 0,
        0x07ffu16 & !0x07ffu16 == 0,
        a & !0x07ffu16 == 0 ==> a & 0x07ffu16 == a,
        a & !0x07ffu16 == 0 ==> a <= 0x07ffu16,
        a & 0u16 == 0,
{
}

proof fn lemma_mask_known(m: u16)
    by (bit_vector)
    requires
        is_mask(m),
    ensures
        m & !0x07ffu16 == 0,
{
}

impl PermissionsTarget {
    /// The bits of this set, one for each capability it holds.
    pub closed spec fn spec_bits(self) -> u16 {
        self.bits
    }

    /// No bit is set that stands for no capability. Every value that
    /// executable code can hold meets this.
    pub closed spec fn wf(self) -> bool {
        self.bits & !ALL_BITS == 0
    }

    #[verifier::type_invariant]
    spec fn inv(self) -> bool {
        self.wf()
    }

    /// This set holds capability `p`.
    pub open spec fn has(self, p: Permission) -> bool {
        self.spec_bits() & p.mask() == p.mask()
    }

    /// The set without any capability.
    pub fn empty() -> (r: Self)
        ensures
            r@ == Set::<Permission>::empty(),
            r.spec_bits() == 0,
            r.wf(),
    {
        proof {
            lemma_truncate_known(0);
        }
        let r = PermissionsTarget { bits: 0 };
        proof {
            assert forall|p: Permission| !r.has(p) by {
                lemma_mask_tests(0, 0, p.mask());
            }
            assert(r@ =~= Set::<Permission>::empty());
        }
        r
    }

    /// The set of every capability.
    pub fn all() -> (r: Self)
        ensures
            r@ == Set::<Permission>::full(),
            r.spec_bits() == ALL_BITS,
            r.wf(),
    {
        proof {
            lemma_truncate_known(0);
        }
        let r = PermissionsTarget { bits: ALL_BITS };
        proof {
            assert forall|p: Permission| r.has(p) by {
                lemma_mask_tests(0, 0, p.mask());
            }
            assert(r@ =~= Set::<Permission>::full());
        }
        r
    }

    /// The set that holds capability `p` and no other.
    pub fn only(p: Permission) -> (r: Self)
        ensures
            r@ == set![p],
            r.spec_bits() == p.mask(),
            r.wf(),
    {
        let bits: u16 = match p {
            Permission::SignSelfUp => SIGN_SELF_UP,
            Permission::SignOthersUp => SIGN_OTHERS_UP,
            Permission::VerifyAttendance => VERIFY_ATTENDANCE,
            Permission::CrudEvents => CRUD_EVENTS,
            Permission::CrudUsers => CRUD_USERS,
            Permission::ViewPhotos => VIEW_PHOTOS,
            Permission::ImportCsvs => IMPORT_CSVS,
            Permission::ExportCsvs => EXPORT_CSVS,
            Permission::CrudAdmins => CRUD_ADMINS,
            Permission::ViewSensitiveDetails => VIEW_SENSITIVE_DETAILS,
            Permission::RunOnboarding => RUN_ONBOARDING,
        };
        proof {
            lemma_mask_known(bits);
        }
        let r = PermissionsTarget { bits };
        proof {
            assert forall|q: Permission| r.has(q) == (q == p) by {
                lemma_mask_distinct(p.mask(), q.mask());
            }
            assert(r@ =~= set![p]);
        }
        r
    }

    /// The set whose bits are those of `bits` that stand for a capability;
    /// the other bits of `bits` are dropped.
    pub fn from_bits_truncate(bits: u16) -> (r: Self)
        ensures
            r.spec_bits() == bits & ALL_BITS,
            forall|p: Permission| r@.contains(p) <==> bits & p.mask() == p.mask(),
            r.wf(),
    {
        proof {
            lemma_truncate_known(bits);
        }
        let r = PermissionsTarget { bits: bits & ALL_BITS };
        proof {
            assert forall|p: Permission| r@.contains(p) <==> bits & p.mask() == p.mask() by {
                lemma_mask_tests(bits, 0, p.mask());
            }
        }
        r
    }

    /// The bits of this set.
    pub fn bits(&self) -> (b: u16)
        ensures
            b == self.spec_bits(),
            b <= ALL_BITS,
            forall|p: Permission| self@.contains(p) <==> b & p.mask() == p.mask(),
    {
        proof {
            use_type_invariant(self);
            lemma_truncate_known(self.bits);
        }
        self.bits
    }

    /// Whether this set holds no capability.
    pub fn is_empty(&self) -> (b: bool)
        ensures
            b <==> self@ == Set::<Permission>::empty(),
    {
        proof {
            use_type_invariant(self);
            lemma_empty_view(*self);
        }
        self.bits == 0
    }

    /// Whether this set holds every capability of `other`.
    pub fn contains(&self, other: Self) -> (b: bool)
        ensures
            b <==> other@.subset_of(self@),
    {
        proof {
            use_type_invariant(self);
            use_type_invariant(other);
            lemma_contains_subset(*self, other);
        }
        self.bits & other.bits == other.bits
    }

    /// The capabilities that this set or `other` holds.
    pub fn union(self, other: Self) -> (r: Self)
        ensures
            r@ == self@.union(other@),
            r.wf(),
    {
        proof {
            use_type_invariant(self);
            use_type_invariant(other);
            lemma_known_closed(self.bits, other.bits);
        }
        let r = PermissionsTarget { bits: self.bits | other.bits };
        proof {
            assert forall|p: Permission| r.has(p) == (self.has(p) || other.has(p)) by {
                lemma_mask_tests(self.bits, other.bits, p.mask());
            }
            assert(r@ =~= self@.union(other@));
        }
        r
    }

    /// The capabilities that this set and `other` both hold.
    pub fn intersection(self, other: Self) -> (r: Self)
        ensures
            r@ == self@.intersect(other@),
            r.wf(),
    {
        proof {
            use_type_invariant(self);
            use_type_invariant(other);
            lemma_known_closed(self.bits, other.bits);
        }
        let r = PermissionsTarget { bits: self.bits & other.bits };
        proof {
            assert forall|p: Permission| r.has(p) == (self.has(p) && other.has(p)) by {
                lemma_mask_tests(self.bits, other.bits, p.mask());
            }
            assert(r@ =~= self@.intersect(other@));
        }
        r
    }

    /// The capabilities that this set holds and `other` does not.
    pub fn difference(self, other: Self) -> (r: Self)
        ensures
            r@ == self@.difference(other@),
            r.wf(),
    {
        proof {
            use_type_invariant(self);
            use_type_invariant(other);
            lemma_known_closed(self.bits, other.bits);
        }
        let r = PermissionsTarget { bits: self.bits & !other.bits };
        proof {
            assert forall|p: Permission| r.has(p) == (self.has(p) && !other.has(p)) by {
                lemma_mask_tests(self.bits, other.bits, p.mask());
            }
            assert(r@ =~= self@.difference(other@));
        }
        r
    }

    /// The names of the first `upto` capabilities, in the order in which
    /// they are declared, that this set holds.
    pub open spec fn names_upto(self, upto: int) -> Seq<&'static str>
        decreases upto,
    {
        if upto <= 0 {
            Seq::empty()
        } else if self.has(Permission::at(upto - 1)) {
            self.names_upto(upto - 1).push(Permission::at(upto - 1).spec_name())
        } else {
            self.names_upto(upto - 1)
        }
    }

    /// The names of the capabilities of this set, in the order in which the
    /// capabilities are declared.
    pub open spec fn spec_names(self) -> Seq<&'static str> {
        self.names_upto(PERMISSION_COUNT as int)
    }

    /// The names of the capabilities of this set, in the order in which the
    /// capabilities are declared.
    pub fn names(&self) -> (list: Vec<&'static str>)
        ensures
            list@ == self.spec_names(),
    {
        let mut list: Vec<&'static str> = Vec::new();
        let mut i: u8 = 0;
        while i < PERMISSION_COUNT
            invariant
                i <= PERMISSION_COUNT,
                list@ == self.names_upto(i as int),
            decreases PERMISSION_COUNT - i,
        {
            let p = Permission::nth(i);
            let one = PermissionsTarget::only(p);
            proof {
                assert(set![p].subset_of(self@) <==> self.has(p)) by {
                    assert(set![p].contains(p));
                    assert(self@.contains(p) == self.has(p));
                }
            }
            if self.contains(one) {
                list.push(p.name());
            }
            i = i + 1;
        }
        list
    }
}

/// How many capabilities there are.
pub const PERMISSION_COUNT: u8 = 11;

impl Permission {
    /// The capability at place `i` of the order in which the capabilities
    /// are declared; the last one for any place behind it.
    pub open spec fn at(i: int) -> Permission {
        if i == 0 {
            Permission::SignSelfUp
        } else if i == 1 {
            Permission::SignOthersUp
        } else if i == 2 {
            Permission::VerifyAttendance
        } else if i == 3 {
            Permission::CrudEvents
        } else if i == 4 {
            Permission::CrudUsers
        } else if i == 5 {
            Permission::ViewPhotos
        } else if i == 6 {
            Permission::ImportCsvs
        } else if i == 7 {
            Permission::ExportCsvs
        } else if i == 8 {
            Permission::CrudAdmins
        } else if i == 9 {
            Permission::ViewSensitiveDetails
        } else {
            Permission::RunOnboarding
        }
    }

    /// The capability at place `i` of the order in which the capabilities
    /// are declared.
    pub fn nth(i: u8) -> (p: Permission)
        ensures
            p == Permission::at(i as int),
    {
        if i == 0 {
            Permission::SignSelfUp
        } else if i == 1 {
            Permission::SignOthersUp
        } else if i == 2 {
            Permission::VerifyAttendance
        } else if i == 3 {
            Permission::CrudEvents
        } else if i == 4 {
            Permission::CrudUsers
        } else if i == 5 {
            Permission::ViewPhotos
        } else if i == 6 {
            Permission::ImportCsvs
        } else if i == 7 {
            Permission::ExportCsvs
        } else if i == 8 {
            Permission::CrudAdmins
        } else if i == 9 {
            Permission::ViewSensitiveDetails
        } else {
            Permission::RunOnboarding
        }
    }

    /// The name of this capability.
    pub open spec fn spec_name(self) -> &'static str {
        match self {
            Permission::SignSelfUp => "SIGN_SELF_UP",
            Permission::SignOthersUp => "SIGN_OTHERS_UP",
            Permission::VerifyAttendance => "VERIFY_ATTENDANCE",
            Permission::CrudEvents => "CRUD_EVENTS",
            Permission::CrudUsers => "CRUD_USERS",
            Permission::ViewPhotos => "VIEW_PHOTOS",
            Permission::ImportCsvs => "IMPORT_CSVS",
            Permission::ExportCsvs => "EXPORT_CSVS",
            Permission::CrudAdmins => "CRUD_ADMINS",
            Permission::ViewSensitiveDetails => "VIEW_SENSITIVE_DETAILS",
            Permission::RunOnboarding => "RUN_ONBOARDING",
        }
    }

    /// The name of this capability.
    pub fn name(self) -> (name: &'static str)
        ensures
            name == self.spec_name(),
    {
        match self {
            Permission::SignSelfUp => "SIGN_SELF_UP",
            Permission::SignOthersUp => "SIGN_OTHERS_UP",
            Permission::VerifyAttendance => "VERIFY_ATTENDANCE",
            Permission::CrudEvents => "CRUD_EVENTS",
            Permission::CrudUsers => "CRUD_USERS",
            Permission::ViewPhotos => "VIEW_PHOTOS",
            Permission::ImportCsvs => "IMPORT_CSVS",
            Permission::ExportCsvs => "EXPORT_CSVS",
            Permission::CrudAdmins => "CRUD_ADMINS",
            Permission::ViewSensitiveDetails => "VIEW_SENSITIVE_DETAILS",
            Permission::RunOnboarding => "RUN_ONBOARDING",
        }
    }
}

/// Only the set without bits holds no capability.
pub proof fn lemma_empty_view(a: PermissionsTarget)
    requires
        a.wf(),
    ensures
        a.spec_bits() == 0 <==> a@ == Set::<Permission>::empty(),
{
    lemma_zero_bitwise(a.bits);
    if a@ == Set::<Permission>::empty() {
        assert forall|p: Permission| !a.has(p) by {
            assert(a@.contains(p) == a.has(p));
        }
        assert(!a.has(Permission::SignSelfUp));
        assert(!a.has(Permission::SignOthersUp));
        assert(!a.has(Permission::VerifyAttendance));
        assert(!a.has(Permission::CrudEvents));
        assert(!a.has(Permission::CrudUsers));
        assert(!a.has(Permission::ViewPhotos));
        assert(!a.has(Permission::ImportCsvs));
        assert(!a.has(Permission::ExportCsvs));
        assert(!a.has(Permission::CrudAdmins));
        assert(!a.has(Permission::ViewSensitiveDetails));
        assert(!a.has(Permission::RunOnboarding));
    }
    if a.bits == 0 {
        assert forall|p: Permission| !a@.contains(p) by {
            assert(a@.contains(p) == a.has(p));
        }
        assert(a@ =~= Set::<Permission>::empty());
    }
}

/// Two sets that hold the same capabilities are the same value.
pub proof fn lemma_same_view_same_value(a: PermissionsTarget, b: PermissionsTarget)
    requires
        a.wf(),
        b.wf(),
        a@ == b@,
    ensures
        a == b,
{
    assert forall|p: Permission| a.has(p) == b.has(p) by {
        assert(a@.contains(p) == a.has(p));
        assert(b@.contains(p) == b.has(p));
        assert(a@.contains(p) == b@.contains(p));
    }
    assert(a.has(Permission::SignSelfUp) == b.has(Permission::SignSelfUp));
    assert(a.has(Permission::SignOthersUp) == b.has(Permission::SignOthersUp));
    assert(a.has(Permission::VerifyAttendance) == b.has(Permission::VerifyAttendance));
    assert(a.has(Permission::CrudEvents) == b.has(Permission::CrudEvents));
    assert(a.has(Permission::CrudUsers) == b.has(Permission::CrudUsers));
    assert(a.has(Permission::ViewPhotos) == b.has(Permission::ViewPhotos));
    assert(a.has(Permission::ImportCsvs) == b.has(Permission::ImportCsvs));
    assert(a.has(Permission::ExportCsvs) == b.has(Permission::ExportCsvs));
    assert(a.has(Permission::CrudAdmins) == b.has(Permission::CrudAdmins));
    assert(a.has(Permission::ViewSensitiveDetails) == b.has(Permission::ViewSensitiveDetails));
    assert(a.has(Permission::RunOnboarding) == b.has(Permission::RunOnboarding));
    lemma_bits_extensional(a.bits, b.bits);
}

/// The bit test behind `contains` is the subset relation on the views.
pub proof fn lemma_contains_subset(a: PermissionsTarget, b: PermissionsTarget)
    requires
        b.wf(),
    ensures
        (a.spec_bits() & b.spec_bits() == b.spec_bits()) <==> b@.subset_of(a@),
{
    lemma_contains_bitwise(a.bits, b.bits);
    if b@.subset_of(a@) {
        assert(b@.contains(Permission::SignSelfUp) ==> a@.contains(Permission::SignSelfUp));
        assert(b@.contains(Permission::SignOthersUp) ==> a@.contains(Permission::SignOthersUp));
        assert(b@.contains(Permission::VerifyAttendance) ==> a@.contains(Permission::VerifyAttendance));
        assert(b@.contains(Permission::CrudEvents) ==> a@.contains(Permission::CrudEvents));
        assert(b@.contains(Permission::CrudUsers) ==> a@.contains(Permission::CrudUsers));
        assert(b@.contains(Permission::ViewPhotos) ==> a@.contains(Permission::ViewPhotos));
        assert(b@.contains(Permission::ImportCsvs) ==> a@.contains(Permission::ImportCsvs));
        assert(b@.contains(Permission::ExportCsvs) ==> a@.contains(Permission::ExportCsvs));
        assert(b@.contains(Permission::CrudAdmins) ==> a@.contains(Permission::CrudAdmins));
        assert(b@.contains(Permission::ViewSensitiveDetails) ==> a@.contains(Permission::ViewSensitiveDetails));
        assert(b@.contains(Permission::RunOnboarding) ==> a@.contains(Permission::RunOnboarding));
    }
    if a.bits & b.bits == b.bits {
        assert forall|p: Permission| b@.contains(p) implies a@.contains(p) by {
            lemma_mask_tests(a.bits, b.bits, p.mask());
        }
    }
}

} // verus!
