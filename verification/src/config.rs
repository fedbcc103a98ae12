//! The configuration the controller keeps in memory: the download
//! directory and the named servers. Reading and writing the file on disk
//! stays outside the library; what is decided about the values here is
//! verified.

use vstd::prelude::*;
use vstd::string::StringExecFns;

use crate::server::{Server, ServerV};
use crate::text::str_eq;

verus! {

/// The in-memory configuration.
#[derive(Debug)]
pub struct Config {
    /// Where downloads land; must name an existing directory.
    pub download_directory: String,
    /// The configured servers, by name.
    pub servers: Option<Vec<(String, Server)>>,
}

/// The views of a server list.
pub open spec fn servers_view(s: Seq<(String, Server)>) -> Seq<(Seq<char>, ServerV)> {
    s.map_values(|p: (String, Server)| (p.0@, p.1@))
}

/// The view of a configuration's servers, an absent list read as empty.
pub open spec fn config_servers_view(c: Config) -> Seq<(Seq<char>, ServerV)> {
    match c.servers {
        Some(v) => servers_view(v@),
        None => Seq::empty(),
    }
}

/// `rv` is `sv` with `name` bound to `srv`: the first binding of the
/// name replaced, or a new binding appended when there was none.
pub open spec fn upserted(
    sv: Seq<(Seq<char>, ServerV)>,
    rv: Seq<(Seq<char>, ServerV)>,
    name: Seq<char>,
    srv: ServerV,
) -> bool {
    if exists|j: int| 0 <= j < sv.len() && (#[trigger] sv[j]).0 == name {
        exists|j: int|
            0 <= j < sv.len() && (#[trigger] sv[j]).0 == name && (forall|k: int|
                0 <= k < j ==> (#[trigger] sv[k]).0 != name) && rv == sv.update(j, (name, srv))
    } else {
        rv == sv.push((name, srv))
    }
}

/// Finds the first binding of `name`.
fn find_server(servers: &Vec<(String, Server)>, name: &str) -> (r: Option<usize>)
    ensures
        match r {
            Some(i) => i < servers@.len() && servers_view(servers@)[i as int].0 == name@ && (
            forall|k: int| 0 <= k < i ==> (#[trigger] servers_view(servers@)[k]).0 != name@),
            None => forall|k: int|
                0 <= k < servers@.len() ==> (#[trigger] servers_view(servers@)[k]).0 != name@,
        },
{
    let mut i: usize = 0;
    while i < servers.len()
        invariant
            i <= servers@.len(),
            forall|k: int| 0 <= k < i ==> (#[trigger] servers_view(servers@)[k]).0 != name@,
        decreases servers@.len() - i,
    {
        if str_eq(servers[i].0.as_str(), name) {
            return Some(i);
        }
        i += 1;
    }
    None
}

/// Binds `name` to `srv` in a server list, as `upserted` describes.
pub fn upsert_server(servers: &Vec<(String, Server)>, name: &str, srv: &Server) -> (r: Vec<
    (String, Server),
>)
    ensures
        upserted(servers_view(servers@), servers_view(r@), name@, srv@),
{
    let ghost sv = servers_view(servers@);
    let found = find_server(servers, name);
    let mut out: Vec<(String, Server)> = Vec::new();
    let mut k: usize = 0;
    while k < servers.len()
        invariant
            sv == servers_view(servers@),
            k <= servers@.len(),
            out@.len() == k,
            match found {
                Some(i) => i < servers@.len() && forall|m: int|
                    0 <= m < k ==> ({
                        let target = if m == i as int {
                            (name@, srv@)
                        } else {
                            sv[m]
                        };
                        (#[trigger] out@[m]).0@ == target.0 && out@[m].1@ == target.1
                    }),
                None => forall|m: int|
                    0 <= m < k ==> (#[trigger] out@[m]).0@ == sv[m].0 && out@[m].1@ == sv[m].1,
            },
        decreases servers@.len() - k,
    {
        let replace = match found {
            Some(i) => i == k,
            None => false,
        };
        if replace {
            out.push((name.to_owned(), srv.dup()));
        } else {
            out.push((servers[k].0.clone(), servers[k].1.dup()));
        }
        proof {
            assert(sv[k as int] == (servers@[k as int].0@, servers@[k as int].1@));
        }
        k += 1;
    }
    match found {
        Some(i) => {
            proof {
                assert(servers_view(out@) =~= sv.update(i as int, (name@, srv@)));
            }
            out
        },
        None => {
            out.push((name.to_owned(), srv.dup()));
            proof {
                assert(servers_view(out@) =~= sv.push((name@, srv@)));
            }
            out
        },
    }
}

/// The contents a fresh configuration file gets: only the download
/// directory, set to the user's home.
pub fn default_config_text(home: &str) -> (r: String)
    ensures
        r@ == "download_directory = '"@ + home@ + "'"@,
{
    let mut t: String = "download_directory = '".to_owned();
    t.append(home);
    t.append("'");
    t
}

} // verus!
