//! Rendering collected suffixes and servers as a resolver configuration file.
use crate::search::string_views;
use vstd::prelude::*;

verus! {

/// The comment block the file opens with, and the blank line after it.
pub const HEADER: &'static str = "# Auto-generated resolv.conf file\n#\n# This uses the output of ipconfig.exe on the Windows side to determine\n# valid DNS servers and search suffixes.\n\n";

/// The line that stands in place of the `search` directive when there are no suffixes.
pub const NO_SUFFIXES: &'static str = "# No DNS search suffixes found. Check your ipconfig.exe output!\n";

/// The text that stands in place of the `nameserver` lines when there are no servers.
pub const NO_SERVERS: &'static str = "# No DNS nameservers found. Check your ipconfig.exe output!";

pub const SEARCH: &'static str = "search";

pub const SPACE: &'static str = " ";

pub const NEWLINE: &'static str = "\n";

pub const NAMESERVER: &'static str = "nameserver ";

/// Each suffix preceded by a space.
pub open spec fn search_items(suffixes: Seq<Seq<char>>) -> Seq<char>
    decreases suffixes.len(),
{
    if suffixes.len() == 0 {
        Seq::empty()
    } else {
        search_items(suffixes.drop_last()) + SPACE@ + suffixes.last()
    }
}

/// One `nameserver` line for each server, in order.
pub open spec fn nameserver_lines(servers: Seq<Seq<char>>) -> Seq<char>
    decreases servers.len(),
{
    if servers.len() == 0 {
        Seq::empty()
    } else {
        nameserver_lines(servers.drop_last()) + NAMESERVER@ + servers.last() + NEWLINE@
    }
}

/// The `search` directive line, or its placeholder comment.
pub open spec fn search_section(suffixes: Seq<Seq<char>>) -> Seq<char> {
    if suffixes.len() == 0 {
        NO_SUFFIXES@
    } else {
        SEARCH@ + search_items(suffixes) + NEWLINE@
    }
}

/// The `nameserver` lines, or their placeholder comment.
pub open spec fn servers_section(servers: Seq<Seq<char>>) -> Seq<char> {
    if servers.len() == 0 {
        NO_SERVERS@
    } else {
        nameserver_lines(servers)
    }
}

/// The whole file: header, search section, a blank line, servers section.
pub open spec fn resolv_conf(suffixes: Seq<Seq<char>>, servers: Seq<Seq<char>>) -> Seq<char> {
    HEADER@ + search_section(suffixes) + NEWLINE@ + servers_section(servers)
}

/// Renders the resolver configuration file for `suffixes` and `servers`.
pub fn generate(suffixes: &[String], servers: &[String]) -> (r: String)
    ensures
        r@ == resolv_conf(string_views(suffixes@), string_views(servers@)),
{
    let ghost sfx = string_views(suffixes@);
    let ghost srv = string_views(servers@);
    let mut out = String::new();
    out.append(HEADER);
    if suffixes.len() != 0 {
        out.append(SEARCH);
        let mut i: usize = 0;
        while i < suffixes.len()
            invariant
                i <= suffixes.len(),
                sfx == string_views(suffixes@),
                out@ == HEADER@ + SEARCH@ + search_items(sfx.take(i as int)),
            decreases suffixes.len() - i,
        {
            out.append(SPACE);
            out.append(suffixes[i].as_str());
            assert(sfx.take(i + 1).drop_last() =~= sfx.take(i as int));
            i += 1;
        }
        assert(sfx.take(i as int) =~= sfx);
        out.append(NEWLINE);
    } else {
        out.append(NO_SUFFIXES);
    }
    out.append(NEWLINE);
    let ghost before = out@;
    if servers.len() != 0 {
        let mut i: usize = 0;
        while i < servers.len()
            invariant
                i <= servers.len(),
                srv == string_views(servers@),
                out@ == before + nameserver_lines(srv.take(i as int)),
            decreases servers.len() - i,
        {
            out.append(NAMESERVER);
            out.append(servers[i].as_str());
            out.append(NEWLINE);
            assert(srv.take(i + 1).drop_last() =~= srv.take(i as int));
            i += 1;
        }
        assert(srv.take(i as int) =~= srv);
    } else {
        out.append(NO_SERVERS);
    }
    out
}

} // verus!
