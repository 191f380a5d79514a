use vstd::prelude::*;

use crate::paths::{join, join_spec};

verus! {

/// Where the data directory lies: the override when it is set; otherwise
/// `cardinal` under `$XDG_DATA_HOME`, or under `$HOME/.local/share` where
/// that is unset.
pub open spec fn data_dir_spec(
    cardinal_data: Option<String>,
    xdg_data_home: Option<String>,
    home: Option<String>,
) -> Seq<char> {
    match cardinal_data {
        Some(p) => p@,
        None => {
            let base = match xdg_data_home {
                Some(x) => x@,
                None => home.unwrap()@ + "/.local/share"@,
            };
            join_spec(base, "cardinal"@)
        },
    }
}

/// The data directory, from the values of `$CARDINAL_DATA`, `$XDG_DATA_HOME`
/// and `$HOME` (each `None` where unset). One of them must be set.
pub fn data_dir(
    cardinal_data: Option<String>,
    xdg_data_home: Option<String>,
    home: Option<String>,
) -> (r: String)
    requires
        cardinal_data is Some || xdg_data_home is Some || home is Some,
    ensures
        r@ == data_dir_spec(cardinal_data, xdg_data_home, home),
{
    match cardinal_data {
        Some(p) => p,
        None => {
            let base = match xdg_data_home {
                Some(x) => x,
                None => {
                    let mut h = home.unwrap();
                    h.append("/.local/share");
                    h
                },
            };
            join(base.as_str(), "cardinal")
        },
    }
}

/// The store's place inside the data directory.
pub fn store(data_dir: &str) -> (r: String)
    ensures
        r@ == join_spec(data_dir@, "store"@),
{
    join(data_dir, "store")
}

} // verus!
