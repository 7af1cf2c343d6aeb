//! Where the database is.

use crate::text::{decimal, decimal_text};
use vstd::prelude::*;
use vstd::string::*;

verus! {

/// How to reach the database.
#[derive(Clone, Debug)]
pub struct DbConfig {
    pub user: String,
    pub password: String,
    pub path: String,
    pub port: u16,
    pub database: String,
}

impl DbConfig {
    /// The address of the database.
    pub open spec fn db_path(&self) -> Seq<char> {
        "postgres://"@ + self.user@ + ":"@ + self.password@ + "@"@ + self.path@ + ":"@ + decimal(
            self.port as nat,
        ) + "/"@ + self.database@
    }

    /// The address of the database.
    pub fn get_db_path(&self) -> (address: String)
        ensures
            address@ == self.db_path(),
    {
        let mut address = String::from_str("postgres://");
        address.append(self.user.as_str());
        address.append(":");
        address.append(self.password.as_str());
        address.append("@");
        address.append(self.path.as_str());
        address.append(":");
        let port = decimal_text(self.port as usize);
        address.append(port.as_str());
        address.append("/");
        address.append(self.database.as_str());
        address
    }
}

} // verus!
