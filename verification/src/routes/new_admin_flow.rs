//! The first-time set-up: what is checked of each form.

use crate::config::auth::AuthConfig;
use crate::text::{is_blank, parse_usize, parsed_usize, text_is_blank};
use std::ops::Range;
use vstd::prelude::*;
use vstd::string::*;

verus! {

/// The bit of `NewAdminDetailsError` that says: the first name is empty.
pub const EMPTY_FIRST_NAME: u16 = 0x01;

/// The bit of `NewAdminDetailsError` that says: the surname is empty.
pub const EMPTY_SURNAME: u16 = 0x02;

/// The bit of `NewAdminDetailsError` that says: the password is blank.
pub const EMPTY_PASSWORD: u16 = 0x04;

/// The bit of `NewAdminDetailsError` that says: the password and its confirmation differ.
pub const MISMATCH_PASSWORD: u16 = 0x20;

/// What is wrong with the details of the first administrator.
#[derive(Clone, Copy, Debug, PartialEq, Eq, Structural)]
pub struct NewAdminDetailsError {
    /// The first name is empty.
    pub empty_first_name: bool,
    /// The surname is empty.
    pub empty_surname: bool,
    /// The password is blank.
    pub empty_password: bool,
    /// The password and its confirmation differ.
    pub mismatch_password: bool,
}

impl NewAdminDetailsError {
    /// The value that says that nothing is wrong.
    pub open spec fn spec_empty() -> Self {
        NewAdminDetailsError { empty_first_name: false, empty_surname: false, empty_password: false, mismatch_password: false }
    }

    /// The value that says that nothing is wrong.
    pub fn empty() -> (none: Self)
        ensures
            none == Self::spec_empty(),
    {
        NewAdminDetailsError { empty_first_name: false, empty_surname: false, empty_password: false, mismatch_password: false }
    }

    /// The bits of this value: the sum of the bits of what it says.
    pub open spec fn spec_bits(self) -> int {
        (if self.empty_first_name { EMPTY_FIRST_NAME as int } else { 0 }) + (if self.empty_surname { EMPTY_SURNAME as int } else { 0 }) + (if self.empty_password { EMPTY_PASSWORD as int } else { 0 }) + (if self.mismatch_password { MISMATCH_PASSWORD as int } else { 0 })
    }

    /// The bits of this value.
    pub fn bits(&self) -> (bits: u16)
        ensures
            bits == self.spec_bits(),
    {
        let mut bits: u16 = 0;
        if self.empty_first_name {
            bits = bits + EMPTY_FIRST_NAME;
        }
        if self.empty_surname {
            bits = bits + EMPTY_SURNAME;
        }
        if self.empty_password {
            bits = bits + EMPTY_PASSWORD;
        }
        if self.mismatch_password {
            bits = bits + MISMATCH_PASSWORD;
        }
        bits
    }

    /// The value that says what the bits of `bits` say; bits without a
    /// meaning are dropped.
    pub open spec fn spec_from_bits_truncate(bits: u16) -> Self {
        NewAdminDetailsError {
            empty_first_name: (bits / EMPTY_FIRST_NAME) % 2 == 1,
            empty_surname: (bits / EMPTY_SURNAME) % 2 == 1,
            empty_password: (bits / EMPTY_PASSWORD) % 2 == 1,
            mismatch_password: (bits / MISMATCH_PASSWORD) % 2 == 1,
        }
    }

    /// The value that says what the bits of `bits` say.
    pub fn from_bits_truncate(bits: u16) -> (flags: Self)
        ensures
            flags == Self::spec_from_bits_truncate(bits),
    {
        NewAdminDetailsError {
            empty_first_name: (bits / EMPTY_FIRST_NAME) % 2 == 1,
            empty_surname: (bits / EMPTY_SURNAME) % 2 == 1,
            empty_password: (bits / EMPTY_PASSWORD) % 2 == 1,
            mismatch_password: (bits / MISMATCH_PASSWORD) % 2 == 1,
        }
    }

    /// Whether nothing is wrong.
    pub fn is_empty(&self) -> (none: bool)
        ensures
            none == (*self == Self::spec_empty()),
    {
        !self.empty_first_name && !self.empty_surname && !self.empty_password && !self.mismatch_password
    }

    /// What this value or `other` says.
    pub fn union(self, other: Self) -> (both: Self)
        ensures
            both == (NewAdminDetailsError {
            empty_first_name: self.empty_first_name || other.empty_first_name,
            empty_surname: self.empty_surname || other.empty_surname,
            empty_password: self.empty_password || other.empty_password,
            mismatch_password: self.mismatch_password || other.mismatch_password,
            }),
    {
        NewAdminDetailsError {
            empty_first_name: self.empty_first_name || other.empty_first_name,
            empty_surname: self.empty_surname || other.empty_surname,
            empty_password: self.empty_password || other.empty_password,
            mismatch_password: self.mismatch_password || other.mismatch_password,
        }
    }

    /// The messages for what this value says, in the order in which the
    /// flags are declared.
    pub open spec fn nice_list(self) -> Seq<&'static str> {
        (if self.empty_first_name { seq!["Provided First Name was empty"] } else { seq![] }) + (if self.empty_surname { seq!["Provided surname was empty"] } else { seq![] }) + (if self.empty_password { seq!["Provided password was empty"] } else { seq![] }) + (if self.mismatch_password { seq!["Passwords didn't match"] } else { seq![] })
    }

    /// The messages for what this value says, one for each flag that is
    /// set, in the order in which the flags are declared.
    pub fn as_nice_list(&self) -> (list: Vec<&'static str>)
        ensures
            list@ == self.nice_list(),
    {
        let mut list: Vec<&'static str> = Vec::new();
        if self.empty_first_name {
            list.push("Provided First Name was empty");
        }
        assert(list@ =~= (if self.empty_first_name { seq!["Provided First Name was empty"] } else { seq![] }));
        if self.empty_surname {
            list.push("Provided surname was empty");
        }
        assert(list@ =~= (if self.empty_first_name { seq!["Provided First Name was empty"] } else { seq![] }) + (if self.empty_surname { seq!["Provided surname was empty"] } else { seq![] }));
        if self.empty_password {
            list.push("Provided password was empty");
        }
        assert(list@ =~= (if self.empty_first_name { seq!["Provided First Name was empty"] } else { seq![] }) + (if self.empty_surname { seq!["Provided surname was empty"] } else { seq![] }) + (if self.empty_password { seq!["Provided password was empty"] } else { seq![] }));
        if self.mismatch_password {
            list.push("Passwords didn't match");
        }
        assert(list@ =~= (if self.empty_first_name { seq!["Provided First Name was empty"] } else { seq![] }) + (if self.empty_surname { seq!["Provided surname was empty"] } else { seq![] }) + (if self.empty_password { seq!["Provided password was empty"] } else { seq![] }) + (if self.mismatch_password { seq!["Passwords didn't match"] } else { seq![] }));
        list
    }

    /// A value is what its bits say.
    pub proof fn bits_say_it_all(self)
        ensures
            0 <= self.spec_bits() <= u16::MAX,
            Self::spec_from_bits_truncate(self.spec_bits() as u16) == self,
    {
    }
}

/// The bit of `S3Failure` that says: the access key ID is blank.
pub const EMPTY_ACCESS_ID: u8 = 0x02;

/// The bit of `S3Failure` that says: the secret access key is blank.
pub const EMPTY_ACCESS_KEY: u8 = 0x04;

/// The bit of `S3Failure` that says: the endpoint is blank.
pub const EMPTY_ENDPOINT: u8 = 0x08;

/// The bit of `S3Failure` that says: the region is blank.
pub const EMPTY_REGION: u8 = 0x10;

/// The bit of `S3Failure` that says: the bucket name is blank.
pub const EMPTY_BUCKET: u8 = 0x20;

/// The bit of `S3Failure` that says: there is no bucket of that name.
pub const BUCKET_NOT_EXIST: u8 = 0x01;

/// The bit of `S3Failure` that says: the storage could not be reached.
pub const OTHER_S3_ERROR: u8 = 0x40;

/// What is wrong with the details of the external storage.
#[derive(Clone, Copy, Debug, PartialEq, Eq, Structural)]
pub struct S3Failure {
    /// The access key ID is blank.
    pub empty_access_id: bool,
    /// The secret access key is blank.
    pub empty_access_key: bool,
    /// The endpoint is blank.
    pub empty_endpoint: bool,
    /// The region is blank.
    pub empty_region: bool,
    /// The bucket name is blank.
    pub empty_bucket: bool,
    /// There is no bucket of that name.
    pub bucket_not_exist: bool,
    /// The storage could not be reached.
    pub other_s3_error: bool,
}

impl S3Failure {
    /// The value that says that nothing is wrong.
    pub open spec fn spec_empty() -> Self {
        S3Failure { empty_access_id: false, empty_access_key: false, empty_endpoint: false, empty_region: false, empty_bucket: false, bucket_not_exist: false, other_s3_error: false }
    }

    /// The value that says that nothing is wrong.
    pub fn empty() -> (none: Self)
        ensures
            none == Self::spec_empty(),
    {
        S3Failure { empty_access_id: false, empty_access_key: false, empty_endpoint: false, empty_region: false, empty_bucket: false, bucket_not_exist: false, other_s3_error: false }
    }

    /// The bits of this value: the sum of the bits of what it says.
    pub open spec fn spec_bits(self) -> int {
        (if self.empty_access_id { EMPTY_ACCESS_ID as int } else { 0 }) + (if self.empty_access_key { EMPTY_ACCESS_KEY as int } else { 0 }) + (if self.empty_endpoint { EMPTY_ENDPOINT as int } else { 0 }) + (if self.empty_region { EMPTY_REGION as int } else { 0 }) + (if self.empty_bucket { EMPTY_BUCKET as int } else { 0 }) + (if self.bucket_not_exist { BUCKET_NOT_EXIST as int } else { 0 }) + (if self.other_s3_error { OTHER_S3_ERROR as int } else { 0 })
    }

    /// The bits of this value.
    pub fn bits(&self) -> (bits: u8)
        ensures
            bits == self.spec_bits(),
    {
        let mut bits: u8 = 0;
        if self.empty_access_id {
            bits = bits + EMPTY_ACCESS_ID;
        }
        if self.empty_access_key {
            bits = bits + EMPTY_ACCESS_KEY;
        }
        if self.empty_endpoint {
            bits = bits + EMPTY_ENDPOINT;
        }
        if self.empty_region {
            bits = bits + EMPTY_REGION;
        }
        if self.empty_bucket {
            bits = bits + EMPTY_BUCKET;
        }
        if self.bucket_not_exist {
            bits = bits + BUCKET_NOT_EXIST;
        }
        if self.other_s3_error {
            bits = bits + OTHER_S3_ERROR;
        }
        bits
    }

    /// The value that says what the bits of `bits` say; bits without a
    /// meaning are dropped.
    pub open spec fn spec_from_bits_truncate(bits: u8) -> Self {
        S3Failure {
            empty_access_id: (bits / EMPTY_ACCESS_ID) % 2 == 1,
            empty_access_key: (bits / EMPTY_ACCESS_KEY) % 2 == 1,
            empty_endpoint: (bits / EMPTY_ENDPOINT) % 2 == 1,
            empty_region: (bits / EMPTY_REGION) % 2 == 1,
            empty_bucket: (bits / EMPTY_BUCKET) % 2 == 1,
            bucket_not_exist: (bits / BUCKET_NOT_EXIST) % 2 == 1,
            other_s3_error: (bits / OTHER_S3_ERROR) % 2 == 1,
        }
    }

    /// The value that says what the bits of `bits` say.
    pub fn from_bits_truncate(bits: u8) -> (flags: Self)
        ensures
            flags == Self::spec_from_bits_truncate(bits),
    {
        S3Failure {
            empty_access_id: (bits / EMPTY_ACCESS_ID) % 2 == 1,
            empty_access_key: (bits / EMPTY_ACCESS_KEY) % 2 == 1,
            empty_endpoint: (bits / EMPTY_ENDPOINT) % 2 == 1,
            empty_region: (bits / EMPTY_REGION) % 2 == 1,
            empty_bucket: (bits / EMPTY_BUCKET) % 2 == 1,
            bucket_not_exist: (bits / BUCKET_NOT_EXIST) % 2 == 1,
            other_s3_error: (bits / OTHER_S3_ERROR) % 2 == 1,
        }
    }

    /// Whether nothing is wrong.
    pub fn is_empty(&self) -> (none: bool)
        ensures
            none == (*self == Self::spec_empty()),
    {
        !self.empty_access_id && !self.empty_access_key && !self.empty_endpoint && !self.empty_region && !self.empty_bucket && !self.bucket_not_exist && !self.other_s3_error
    }

    /// What this value or `other` says.
    pub fn union(self, other: Self) -> (both: Self)
        ensures
            both == (S3Failure {
            empty_access_id: self.empty_access_id || other.empty_access_id,
            empty_access_key: self.empty_access_key || other.empty_access_key,
            empty_endpoint: self.empty_endpoint || other.empty_endpoint,
            empty_region: self.empty_region || other.empty_region,
            empty_bucket: self.empty_bucket || other.empty_bucket,
            bucket_not_exist: self.bucket_not_exist || other.bucket_not_exist,
            other_s3_error: self.other_s3_error || other.other_s3_error,
            }),
    {
        S3Failure {
            empty_access_id: self.empty_access_id || other.empty_access_id,
            empty_access_key: self.empty_access_key || other.empty_access_key,
            empty_endpoint: self.empty_endpoint || other.empty_endpoint,
            empty_region: self.empty_region || other.empty_region,
            empty_bucket: self.empty_bucket || other.empty_bucket,
            bucket_not_exist: self.bucket_not_exist || other.bucket_not_exist,
            other_s3_error: self.other_s3_error || other.other_s3_error,
        }
    }

    /// The messages for what this value says, in the order in which the
    /// flags are declared.
    pub open spec fn nice_list(self) -> Seq<&'static str> {
        (if self.empty_access_id { seq!["Empty Access ID"] } else { seq![] }) + (if self.empty_access_key { seq!["Empty Access Key"] } else { seq![] }) + (if self.empty_endpoint { seq!["Empty Endpoint URL"] } else { seq![] }) + (if self.empty_region { seq!["Empty Region Name"] } else { seq![] }) + (if self.empty_bucket { seq!["Empty Bucket Name"] } else { seq![] }) + (if self.bucket_not_exist { seq!["Provided bucket does not exist"] } else { seq![] }) + (if self.other_s3_error { seq!["Error connecting with S3"] } else { seq![] })
    }

    /// The messages for what this value says, one for each flag that is
    /// set, in the order in which the flags are declared.
    pub fn as_nice_list(&self) -> (list: Vec<&'static str>)
        ensures
            list@ == self.nice_list(),
    {
        let mut list: Vec<&'static str> = Vec::new();
        if self.empty_access_id {
            list.push("Empty Access ID");
        }
        assert(list@ =~= (if self.empty_access_id { seq!["Empty Access ID"] } else { seq![] }));
        if self.empty_access_key {
            list.push("Empty Access Key");
        }
        assert(list@ =~= (if self.empty_access_id { seq!["Empty Access ID"] } else { seq![] }) + (if self.empty_access_key { seq!["Empty Access Key"] } else { seq![] }));
        if self.empty_endpoint {
            list.push("Empty Endpoint URL");
        }
        assert(list@ =~= (if self.empty_access_id { seq!["Empty Access ID"] } else { seq![] }) + (if self.empty_access_key { seq!["Empty Access Key"] } else { seq![] }) + (if self.empty_endpoint { seq!["Empty Endpoint URL"] } else { seq![] }));
        if self.empty_region {
            list.push("Empty Region Name");
        }
        assert(list@ =~= (if self.empty_access_id { seq!["Empty Access ID"] } else { seq![] }) + (if self.empty_access_key { seq!["Empty Access Key"] } else { seq![] }) + (if self.empty_endpoint { seq!["Empty Endpoint URL"] } else { seq![] }) + (if self.empty_region { seq!["Empty Region Name"] } else { seq![] }));
        if self.empty_bucket {
            list.push("Empty Bucket Name");
        }
        assert(list@ =~= (if self.empty_access_id { seq!["Empty Access ID"] } else { seq![] }) + (if self.empty_access_key { seq!["Empty Access Key"] } else { seq![] }) + (if self.empty_endpoint { seq!["Empty Endpoint URL"] } else { seq![] }) + (if self.empty_region { seq!["Empty Region Name"] } else { seq![] }) + (if self.empty_bucket { seq!["Empty Bucket Name"] } else { seq![] }));
        if self.bucket_not_exist {
            list.push("Provided bucket does not exist");
        }
        assert(list@ =~= (if self.empty_access_id { seq!["Empty Access ID"] } else { seq![] }) + (if self.empty_access_key { seq!["Empty Access Key"] } else { seq![] }) + (if self.empty_endpoint { seq!["Empty Endpoint URL"] } else { seq![] }) + (if self.empty_region { seq!["Empty Region Name"] } else { seq![] }) + (if self.empty_bucket { seq!["Empty Bucket Name"] } else { seq![] }) + (if self.bucket_not_exist { seq!["Provided bucket does not exist"] } else { seq![] }));
        if self.other_s3_error {
            list.push("Error connecting with S3");
        }
        assert(list@ =~= (if self.empty_access_id { seq!["Empty Access ID"] } else { seq![] }) + (if self.empty_access_key { seq!["Empty Access Key"] } else { seq![] }) + (if self.empty_endpoint { seq!["Empty Endpoint URL"] } else { seq![] }) + (if self.empty_region { seq!["Empty Region Name"] } else { seq![] }) + (if self.empty_bucket { seq!["Empty Bucket Name"] } else { seq![] }) + (if self.bucket_not_exist { seq!["Provided bucket does not exist"] } else { seq![] }) + (if self.other_s3_error { seq!["Error connecting with S3"] } else { seq![] }));
        list
    }

    /// A value is what its bits say.
    pub proof fn bits_say_it_all(self)
        ensures
            0 <= self.spec_bits() <= u8::MAX,
            Self::spec_from_bits_truncate(self.spec_bits() as u8) == self,
    {
    }
}

/// The bit of `AuthConfigFailure` that says: the range of word lengths is no valid range.
pub const WL_OOR: u8 = 0x01;

/// The bit of `AuthConfigFailure` that says: the lower word length is no number.
pub const PARSE_WL_L: u8 = 0x02;

/// The bit of `AuthConfigFailure` that says: the upper word length is no number.
pub const PARSE_WL_U: u8 = 0x04;

/// The bit of `AuthConfigFailure` that says: the range of numbers is no valid range.
pub const NR_OOR: u8 = 0x10;

/// The bit of `AuthConfigFailure` that says: the lower number is no number.
pub const PARSE_NR_L: u8 = 0x20;

/// The bit of `AuthConfigFailure` that says: the upper number is no number.
pub const PARSE_NR_U: u8 = 0x40;

/// What is wrong with the ranges for default passwords.
#[derive(Clone, Copy, Debug, PartialEq, Eq, Structural)]
pub struct AuthConfigFailure {
    /// The range of word lengths is no valid range.
    pub wl_oor: bool,
    /// The lower word length is no number.
    pub parse_wl_l: bool,
    /// The upper word length is no number.
    pub parse_wl_u: bool,
    /// The range of numbers is no valid range.
    pub nr_oor: bool,
    /// The lower number is no number.
    pub parse_nr_l: bool,
    /// The upper number is no number.
    pub parse_nr_u: bool,
}

impl AuthConfigFailure {
    /// The value that says that nothing is wrong.
    pub open spec fn spec_empty() -> Self {
        AuthConfigFailure { wl_oor: false, parse_wl_l: false, parse_wl_u: false, nr_oor: false, parse_nr_l: false, parse_nr_u: false }
    }

    /// The value that says that nothing is wrong.
    pub fn empty() -> (none: Self)
        ensures
            none == Self::spec_empty(),
    {
        AuthConfigFailure { wl_oor: false, parse_wl_l: false, parse_wl_u: false, nr_oor: false, parse_nr_l: false, parse_nr_u: false }
    }

    /// The bits of this value: the sum of the bits of what it says.
    pub open spec fn spec_bits(self) -> int {
        (if self.wl_oor { WL_OOR as int } else { 0 }) + (if self.parse_wl_l { PARSE_WL_L as int } else { 0 }) + (if self.parse_wl_u { PARSE_WL_U as int } else { 0 }) + (if self.nr_oor { NR_OOR as int } else { 0 }) + (if self.parse_nr_l { PARSE_NR_L as int } else { 0 }) + (if self.parse_nr_u { PARSE_NR_U as int } else { 0 })
    }

    /// The bits of this value.
    pub fn bits(&self) -> (bits: u8)
        ensures
            bits == self.spec_bits(),
    {
        let mut bits: u8 = 0;
        if self.wl_oor {
            bits = bits + WL_OOR;
        }
        if self.parse_wl_l {
            bits = bits + PARSE_WL_L;
        }
        if self.parse_wl_u {
            bits = bits + PARSE_WL_U;
        }
        if self.nr_oor {
            bits = bits + NR_OOR;
        }
        if self.parse_nr_l {
            bits = bits + PARSE_NR_L;
        }
        if self.parse_nr_u {
            bits = bits + PARSE_NR_U;
        }
        bits
    }

    /// The value that says what the bits of `bits` say; bits without a
    /// meaning are dropped.
    pub open spec fn spec_from_bits_truncate(bits: u8) -> Self {
        AuthConfigFailure {
            wl_oor: (bits / WL_OOR) % 2 == 1,
            parse_wl_l: (bits / PARSE_WL_L) % 2 == 1,
            parse_wl_u: (bits / PARSE_WL_U) % 2 == 1,
            nr_oor: (bits / NR_OOR) % 2 == 1,
            parse_nr_l: (bits / PARSE_NR_L) % 2 == 1,
            parse_nr_u: (bits / PARSE_NR_U) % 2 == 1,
        }
    }

    /// The value that says what the bits of `bits` say.
    pub fn from_bits_truncate(bits: u8) -> (flags: Self)
        ensures
            flags == Self::spec_from_bits_truncate(bits),
    {
        AuthConfigFailure {
            wl_oor: (bits / WL_OOR) % 2 == 1,
            parse_wl_l: (bits / PARSE_WL_L) % 2 == 1,
            parse_wl_u: (bits / PARSE_WL_U) % 2 == 1,
            nr_oor: (bits / NR_OOR) % 2 == 1,
            parse_nr_l: (bits / PARSE_NR_L) % 2 == 1,
            parse_nr_u: (bits / PARSE_NR_U) % 2 == 1,
        }
    }

    /// Whether nothing is wrong.
    pub fn is_empty(&self) -> (none: bool)
        ensures
            none == (*self == Self::spec_empty()),
    {
        !self.wl_oor && !self.parse_wl_l && !self.parse_wl_u && !self.nr_oor && !self.parse_nr_l && !self.parse_nr_u
    }

    /// What this value or `other` says.
    pub fn union(self, other: Self) -> (both: Self)
        ensures
            both == (AuthConfigFailure {
            wl_oor: self.wl_oor || other.wl_oor,
            parse_wl_l: self.parse_wl_l || other.parse_wl_l,
            parse_wl_u: self.parse_wl_u || other.parse_wl_u,
            nr_oor: self.nr_oor || other.nr_oor,
            parse_nr_l: self.parse_nr_l || other.parse_nr_l,
            parse_nr_u: self.parse_nr_u || other.parse_nr_u,
            }),
    {
        AuthConfigFailure {
            wl_oor: self.wl_oor || other.wl_oor,
            parse_wl_l: self.parse_wl_l || other.parse_wl_l,
            parse_wl_u: self.parse_wl_u || other.parse_wl_u,
            nr_oor: self.nr_oor || other.nr_oor,
            parse_nr_l: self.parse_nr_l || other.parse_nr_l,
            parse_nr_u: self.parse_nr_u || other.parse_nr_u,
        }
    }

    /// The messages for what this value says, in the order in which the
    /// flags are declared.
    pub open spec fn nice_list(self) -> Seq<&'static str> {
        (if self.wl_oor { seq!["Word Length: Invalid Range"] } else { seq![] }) + (if self.parse_wl_l { seq!["Word Length - Lower Bound: Parse Error"] } else { seq![] }) + (if self.parse_wl_u { seq!["Word Length - Upper Bound: Parse Error"] } else { seq![] }) + (if self.nr_oor { seq!["Number Range: Invalid Range"] } else { seq![] }) + (if self.parse_nr_l { seq!["Number Range - Lower Bound: Parse Error"] } else { seq![] }) + (if self.parse_nr_u { seq!["Number Range - Upper Bound: Parse Error"] } else { seq![] })
    }

    /// The messages for what this value says, one for each flag that is
    /// set, in the order in which the flags are declared.
    pub fn as_nice_list(&self) -> (list: Vec<&'static str>)
        ensures
            list@ == self.nice_list(),
    {
        let mut list: Vec<&'static str> = Vec::new();
        if self.wl_oor {
            list.push("Word Length: Invalid Range");
        }
        assert(list@ =~= (if self.wl_oor { seq!["Word Length: Invalid Range"] } else { seq![] }));
        if self.parse_wl_l {
            list.push("Word Length - Lower Bound: Parse Error");
        }
        assert(list@ =~= (if self.wl_oor { seq!["Word Length: Invalid Range"] } else { seq![] }) + (if self.parse_wl_l { seq!["Word Length - Lower Bound: Parse Error"] } else { seq![] }));
        if self.parse_wl_u {
            list.push("Word Length - Upper Bound: Parse Error");
        }
        assert(list@ =~= (if self.wl_oor { seq!["Word Length: Invalid Range"] } else { seq![] }) + (if self.parse_wl_l { seq!["Word Length - Lower Bound: Parse Error"] } else { seq![] }) + (if self.parse_wl_u { seq!["Word Length - Upper Bound: Parse Error"] } else { seq![] }));
        if self.nr_oor {
            list.push("Number Range: Invalid Range");
        }
        assert(list@ =~= (if self.wl_oor { seq!["Word Length: Invalid Range"] } else { seq![] }) + (if self.parse_wl_l { seq!["Word Length - Lower Bound: Parse Error"] } else { seq![] }) + (if self.parse_wl_u { seq!["Word Length - Upper Bound: Parse Error"] } else { seq![] }) + (if self.nr_oor { seq!["Number Range: Invalid Range"] } else { seq![] }));
        if self.parse_nr_l {
            list.push("Number Range - Lower Bound: Parse Error");
        }
        assert(list@ =~= (if self.wl_oor { seq!["Word Length: Invalid Range"] } else { seq![] }) + (if self.parse_wl_l { seq!["Word Length - Lower Bound: Parse Error"] } else { seq![] }) + (if self.parse_wl_u { seq!["Word Length - Upper Bound: Parse Error"] } else { seq![] }) + (if self.nr_oor { seq!["Number Range: Invalid Range"] } else { seq![] }) + (if self.parse_nr_l { seq!["Number Range - Lower Bound: Parse Error"] } else { seq![] }));
        if self.parse_nr_u {
            list.push("Number Range - Upper Bound: Parse Error");
        }
        assert(list@ =~= (if self.wl_oor { seq!["Word Length: Invalid Range"] } else { seq![] }) + (if self.parse_wl_l { seq!["Word Length - Lower Bound: Parse Error"] } else { seq![] }) + (if self.parse_wl_u { seq!["Word Length - Upper Bound: Parse Error"] } else { seq![] }) + (if self.nr_oor { seq!["Number Range: Invalid Range"] } else { seq![] }) + (if self.parse_nr_l { seq!["Number Range - Lower Bound: Parse Error"] } else { seq![] }) + (if self.parse_nr_u { seq!["Number Range - Upper Bound: Parse Error"] } else { seq![] }));
        list
    }

    /// A value is what its bits say.
    pub proof fn bits_say_it_all(self)
        ensures
            0 <= self.spec_bits() <= u8::MAX,
            Self::spec_from_bits_truncate(self.spec_bits() as u8) == self,
    {
    }
}

/// The form that creates the first administrator.
#[derive(Clone, Debug)]
pub struct CreateAdminAccountForm {
    pub first_name: String,
    pub pref_name: String,
    pub surname: String,
    pub email: String,
    pub password: String,
    pub confirm_password: String,
}

impl CreateAdminAccountForm {
    /// What is wrong with the form.
    pub fn validate(&self) -> (errors: NewAdminDetailsError)
        ensures
            errors == (NewAdminDetailsError {
                empty_first_name: self.first_name@.len() == 0,
                empty_surname: self.surname@.len() == 0,
                empty_password: is_blank(self.password@),
                mismatch_password: self.password@ != self.confirm_password@,
            }),
    {
        NewAdminDetailsError {
            empty_first_name: self.first_name.as_str().is_empty(),
            empty_surname: self.surname.as_str().is_empty(),
            empty_password: text_is_blank(self.password.as_str()),
            mismatch_password: self.password != self.confirm_password,
        }
    }
}

/// The form with the details of the external storage.
#[derive(Clone, Debug)]
pub struct S3Details {
    pub access_key_id: String,
    pub secret_access_key: String,
    pub endpoint: String,
    pub region: String,
    pub bucket: String,
}

impl S3Details {
    /// What is wrong with the form. A blank region is reported as a blank
    /// endpoint.
    pub fn validate(&self) -> (errors: S3Failure)
        ensures
            errors == (S3Failure {
                empty_access_id: is_blank(self.access_key_id@),
                empty_access_key: is_blank(self.secret_access_key@),
                empty_endpoint: is_blank(self.endpoint@) || is_blank(self.region@),
                empty_region: false,
                empty_bucket: is_blank(self.bucket@),
                bucket_not_exist: false,
                other_s3_error: false,
            }),
    {
        S3Failure {
            empty_access_id: text_is_blank(self.access_key_id.as_str()),
            empty_access_key: text_is_blank(self.secret_access_key.as_str()),
            empty_endpoint: text_is_blank(self.endpoint.as_str()) || text_is_blank(
                self.region.as_str(),
            ),
            empty_region: false,
            empty_bucket: text_is_blank(self.bucket.as_str()),
            bucket_not_exist: false,
            other_s3_error: false,
        }
    }
}

impl S3Failure {
    /// What is wrong with a bucket, given whether the storage says that it
    /// exists; `None` stands for a storage that could not be asked.
    pub open spec fn spec_of_bucket(exists: Option<bool>) -> Option<S3Failure> {
        match exists {
            Some(true) => None,
            Some(false) => Some(S3Failure { bucket_not_exist: true, ..S3Failure::spec_empty() }),
            None => Some(S3Failure { other_s3_error: true, ..S3Failure::spec_empty() }),
        }
    }

    /// What is wrong with a bucket, given whether the storage says that it
    /// exists; `None` stands for a storage that could not be asked.
    pub fn of_bucket(exists: Option<bool>) -> (failure: Option<S3Failure>)
        ensures
            failure == Self::spec_of_bucket(exists),
    {
        let none = S3Failure::empty();
        match exists {
            Some(true) => None,
            Some(false) => Some(S3Failure { bucket_not_exist: true, ..none }),
            None => Some(S3Failure { other_s3_error: true, ..none }),
        }
    }
}

/// The form with the ranges for default passwords.
#[derive(Clone, Debug)]
pub struct AuthConfigForm {
    pub wordlen_lower: String,
    pub wordlen_upper: String,
    pub numberrange_lower: String,
    pub numberrange_upper: String,
}

/// The form with the time zone and how dates are written.
#[derive(Clone, Debug)]
pub struct SetupTzForm {
    pub tz: String,
    pub hour_cycle: String,
    pub calendar_algorithm: String,
    pub locale: String,
}

/// The longest word that a default password may ask for.
pub const MAX_WORD_LEN: usize = 32;

/// The largest number that a default password may ask for.
pub const MAX_NUMBER: usize = 1_000_000_000;

/// The number that a field of the form stands for; zero where it stands for
/// none.
pub open spec fn field_value(text: Seq<char>) -> usize {
    match parsed_usize(text) {
        Some(v) => v,
        None => 0,
    }
}

/// Whether `lower` and `upper` are no valid bounds: a bound is zero, the
/// lower exceeds the upper, or the upper exceeds `max`.
pub open spec fn out_of_range(lower: usize, upper: usize, max: usize) -> bool {
    lower > upper || lower == 0 || upper == 0 || upper > max
}

impl AuthConfigForm {
    /// What is wrong with the form. Bounds of numbers that are out of range
    /// are reported as a range of word lengths that is out of range.
    pub open spec fn failure(&self) -> AuthConfigFailure {
        AuthConfigFailure {
            wl_oor: out_of_range(
                field_value(self.wordlen_lower@),
                field_value(self.wordlen_upper@),
                MAX_WORD_LEN,
            ) || out_of_range(
                field_value(self.numberrange_lower@),
                field_value(self.numberrange_upper@),
                MAX_NUMBER,
            ),
            parse_wl_l: parsed_usize(self.wordlen_lower@) is None,
            parse_wl_u: parsed_usize(self.wordlen_upper@) is None,
            nr_oor: false,
            parse_nr_l: parsed_usize(self.numberrange_lower@) is None,
            parse_nr_u: parsed_usize(self.numberrange_upper@) is None,
        }
    }

    /// The ranges that the form asks for, or what is wrong with it.
    pub fn validate(&self) -> (config: Result<AuthConfig, AuthConfigFailure>)
        ensures
            match config {
                Ok(c) => {
                    &&& self.failure() == AuthConfigFailure::spec_empty()
                    &&& c.word_len_range.start == field_value(self.wordlen_lower@)
                    &&& c.word_len_range.end == field_value(self.wordlen_upper@)
                    &&& c.numbers_range.start == field_value(self.numberrange_lower@)
                    &&& c.numbers_range.end == field_value(self.numberrange_upper@)
                },
                Err(e) => e == self.failure() && e != AuthConfigFailure::spec_empty(),
            },
    {
        let wl_l = parse_usize(self.wordlen_lower.as_str());
        let wl_u = parse_usize(self.wordlen_upper.as_str());
        let nr_l = parse_usize(self.numberrange_lower.as_str());
        let nr_u = parse_usize(self.numberrange_upper.as_str());
        let wl_lower = wl_l.unwrap_or(0);
        let wl_upper = wl_u.unwrap_or(0);
        let nr_lower = nr_l.unwrap_or(0);
        let nr_upper = nr_u.unwrap_or(0);
        let wl_bad = wl_lower > wl_upper || wl_lower == 0 || wl_upper == 0 || wl_upper
            > MAX_WORD_LEN;
        let nr_bad = nr_lower > nr_upper || nr_lower == 0 || nr_upper == 0 || nr_upper
            > MAX_NUMBER;
        let errors = AuthConfigFailure {
            wl_oor: wl_bad || nr_bad,
            parse_wl_l: wl_l.is_none(),
            parse_wl_u: wl_u.is_none(),
            nr_oor: false,
            parse_nr_l: nr_l.is_none(),
            parse_nr_u: nr_u.is_none(),
        };
        if errors.is_empty() {
            Ok(
                AuthConfig {
                    word_len_range: Range { start: wl_lower, end: wl_upper },
                    numbers_range: Range { start: nr_lower, end: nr_upper },
                },
            )
        } else {
            Err(errors)
        }
    }
}

} // verus!
