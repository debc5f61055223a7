//! The credentials file that the database dump reads.

use crate::settings::app_settings::Mysql;
use vstd::prelude::*;
use vstd::string::*;

verus! {

/// The text of the credentials file for this user and password.
pub open spec fn cnf_text(username: Seq<char>, password: Seq<char>) -> Seq<char> {
    "[mysqldump]\nuser="@ + username + "\npassword="@ + password
}

/// Builds the credentials file of the database dump.
pub fn mysqldump_cnf(mysql_settings: &Mysql) -> (r: String)
    ensures
        r@ == cnf_text(
            mysql_settings.mysqldump_username@,
            mysql_settings.mysqldump_password@,
        ),
{
    let mut text = String::from_str("[mysqldump]\nuser=");
    text.append(mysql_settings.mysqldump_username.as_str());
    text.append("\npassword=");
    text.append(mysql_settings.mysqldump_password.as_str());
    text
}

} // verus!
