//! What the command line settles: where the catalogue is asked and how
//! the store is reached.

use vstd::prelude::*;
use vstd::string::StrSliceExecFns;
use crate::cmc::API;
use crate::text::{join, join_strings, string_views, trim, trimmed};

verus! {

/// The settings of one run.
#[derive(Clone, Debug, PartialEq, Eq)]
pub struct Args {
    /// Address of the proxy in front of the catalogue.
    pub api: String,
    /// Host or socket path of the store.
    pub db_host: String,
    /// Name of the database.
    pub db_name: String,
    /// User of the database; empty for the login name.
    pub db_user: String,
    /// Password, where one is needed.
    pub db_pass: String,
}

/// The user that the store is asked for: the one that was set, else the
/// login name, else nobody.
pub open spec fn effective_user(db_user: Seq<char>, login: Option<Seq<char>>) -> Seq<char> {
    if db_user.len() == 0 {
        match login {
            Some(name) => name,
            None => Seq::empty(),
        }
    } else {
        db_user
    }
}

/// The password entry of the connection text: empty where no password is
/// set.
pub open spec fn password_entry(db_pass: Seq<char>) -> Seq<char> {
    if db_pass.len() == 0 {
        Seq::empty()
    } else {
        "password="@ + db_pass
    }
}

/// The connection text: the entries for host, database, user and
/// password, a space between neighbours, white space at both ends removed.
pub open spec fn config_text(
    db_host: Seq<char>,
    db_name: Seq<char>,
    db_user: Seq<char>,
    db_pass: Seq<char>,
    login: Option<Seq<char>>,
) -> Seq<char> {
    trimmed(
        join(
            seq![
                "host="@ + db_host,
                "dbname="@ + db_name,
                "user="@ + effective_user(db_user, login),
                password_entry(db_pass),
            ],
            " "@,
        ),
    )
}

/// The view of an optional string slice.
pub open spec fn optional_view(text: Option<&str>) -> Option<Seq<char>> {
    match text {
        Some(t) => Some(t@),
        None => None,
    }
}

fn entry(key: &str, value: &str) -> (r: String)
    ensures
        r@ == key@ + value@,
{
    let mut text: String = String::from_str(key);
    text.append(value);
    text
}

impl Args {
    /// The catalogue behind the proxy.
    pub fn cmc_api(&self) -> (r: API)
        ensures
            r@ == self.api@ + "/cmc"@,
    {
        let mut endpoint: String = self.api.clone();
        endpoint.append("/cmc");
        API::new(endpoint.as_str())
    }

    /// The text that describes the connection to the store. `login` is
    /// the name under which the process runs, where the environment gives
    /// one; it stands in for a user that was not set.
    pub fn db_config(&self, login: Option<&str>) -> (r: String)
        ensures
            r@ == config_text(
                self.db_host@,
                self.db_name@,
                self.db_user@,
                self.db_pass@,
                optional_view(login),
            ),
    {
        let user: &str = if self.db_user.as_str().unicode_len() == 0 {
            match login {
                Some(name) => name,
                None => "",
            }
        } else {
            self.db_user.as_str()
        };
        let password: String = if self.db_pass.as_str().unicode_len() == 0 {
            String::new()
        } else {
            entry("password=", self.db_pass.as_str())
        };
        proof {
            reveal_strlit("");
            assert(user@ =~= effective_user(self.db_user@, optional_view(login)));
            assert(password@ =~= password_entry(self.db_pass@));
        }
        let mut entries: Vec<String> = Vec::new();
        entries.push(entry("host=", self.db_host.as_str()));
        entries.push(entry("dbname=", self.db_name.as_str()));
        entries.push(entry("user=", user));
        entries.push(password);
        proof {
            assert(string_views(entries@) =~= seq![
                "host="@ + self.db_host@,
                "dbname="@ + self.db_name@,
                "user="@ + effective_user(self.db_user@, optional_view(login)),
                password_entry(self.db_pass@),
            ]);
        }
        let joined: String = join_strings(&entries, " ");
        trim(joined.as_str())
    }
}

} // verus!
