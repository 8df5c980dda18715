//! The line-state-machine extractor.
//!
//! Each line is tried against the patterns that the current mode allows, in
//! order, and the first that matches decides what is collected and which mode
//! follows. The model below (`next`, `run`, `extraction`) states this over
//! the results of the patterns; `Search` is verified against it.
use crate::lines::{lines_of, split_lines, str_views};
use crate::pattern::{captured, is_piece_of, opt_view, usable, LinePattern};
use crate::resolv::{generate, resolv_conf};
use vstd::prelude::*;

verus! {

/// A header line naming DNS servers: non-numeric filler after the marker,
/// then the first address on the line.
pub const SERVERS_HEADER: &'static str = r"DNS Servers([^0-9]+)(((25[0-5]|(2[0-4]|1\d|[1-9]|)\d)\.?\b){4})";

/// The capture group of `SERVERS_HEADER` that holds the address.
pub const SERVERS_HEADER_GROUP: usize = 2;

/// A continuation line holding one more server address.
pub const SERVERS_EXTRA: &'static str = r"^[^0-9]+(((25[0-5]|(2[0-4]|1\d|[1-9]|)\d)\.?\b){4})";

/// The capture group of `SERVERS_EXTRA` that holds the address.
pub const SERVERS_EXTRA_GROUP: usize = 1;

/// A header line naming DNS search suffixes, with the first suffix on it.
pub const SUFFIXES_HEADER: &'static str = r"DNS Suffix Search List(.)+: ((([a-z])+\.?)+)";

/// The capture group of `SUFFIXES_HEADER` that holds the suffix.
pub const SUFFIXES_HEADER_GROUP: usize = 2;

/// A continuation line holding one more search suffix.
pub const SUFFIXES_EXTRA: &'static str = r"^\s+((([a-z])+\.?)+)";

/// The capture group of `SUFFIXES_EXTRA` that holds the suffix.
pub const SUFFIXES_EXTRA_GROUP: usize = 1;

/// The address a servers-header line carries, if it is one.
pub open spec fn servers_header(line: Seq<char>) -> Option<Seq<char>> {
    captured(SERVERS_HEADER@, line, SERVERS_HEADER_GROUP as nat)
}

/// The address a servers continuation line carries, if it is one.
pub open spec fn servers_extra(line: Seq<char>) -> Option<Seq<char>> {
    captured(SERVERS_EXTRA@, line, SERVERS_EXTRA_GROUP as nat)
}

/// The suffix a suffixes-header line carries, if it is one.
pub open spec fn suffixes_header(line: Seq<char>) -> Option<Seq<char>> {
    captured(SUFFIXES_HEADER@, line, SUFFIXES_HEADER_GROUP as nat)
}

/// The suffix a suffixes continuation line carries, if it is one.
pub open spec fn suffixes_extra(line: Seq<char>) -> Option<Seq<char>> {
    captured(SUFFIXES_EXTRA@, line, SUFFIXES_EXTRA_GROUP as nat)
}

/// Whether all four built-in patterns compile and have the group they are
/// read at.
pub open spec fn patterns_usable() -> bool {
    &&& usable(SERVERS_HEADER@, SERVERS_HEADER_GROUP as nat)
    &&& usable(SERVERS_EXTRA@, SERVERS_EXTRA_GROUP as nat)
    &&& usable(SUFFIXES_HEADER@, SUFFIXES_HEADER_GROUP as nat)
    &&& usable(SUFFIXES_EXTRA@, SUFFIXES_EXTRA_GROUP as nat)
}

/// What kind of line the extractor expects next.
#[derive(Clone, Copy, Debug, PartialEq, Eq, Structural)]
pub enum Mode {
    /// Outside any block: only header lines are recognized.
    General,
    /// After a suffixes header or continuation line.
    InSuffixList,
    /// After a servers header or continuation line.
    InServerList,
}

/// The state of one extraction run: what was collected so far, in order,
/// and the current mode.
pub struct SearchModel {
    pub suffixes: Seq<Seq<char>>,
    pub servers: Seq<Seq<char>>,
    pub mode: Mode,
}

/// The state before any line.
pub open spec fn initial() -> SearchModel {
    SearchModel { suffixes: Seq::empty(), servers: Seq::empty(), mode: Mode::General }
}

/// `s` with `server` appended and the mode set to `mode`.
pub open spec fn add_server(s: SearchModel, server: Seq<char>, mode: Mode) -> SearchModel {
    SearchModel { suffixes: s.suffixes, servers: s.servers.push(server), mode }
}

/// `s` with `suffix` appended and the mode set to `mode`.
pub open spec fn add_suffix(s: SearchModel, suffix: Seq<char>, mode: Mode) -> SearchModel {
    SearchModel { suffixes: s.suffixes.push(suffix), servers: s.servers, mode }
}

/// `s` with the mode set to `mode` and nothing collected.
pub open spec fn with_mode(s: SearchModel, mode: Mode) -> SearchModel {
    SearchModel { suffixes: s.suffixes, servers: s.servers, mode }
}

/// The state after one line whose pattern results are `sh` (servers header),
/// `sx` (servers continuation), `fh` (suffixes header) and `fx` (suffixes
/// continuation).
///
/// | mode         | tried, in order                  | if none matches |
/// |--------------|----------------------------------|-----------------|
/// | General      | servers header, suffixes header  | stay General    |
/// | InSuffixList | suffixes extra, servers header   | General         |
/// | InServerList | servers extra, suffixes header   | General         |
///
/// A header match switches to its list mode; a continuation match keeps the mode.
pub open spec fn step(
    s: SearchModel,
    sh: Option<Seq<char>>,
    sx: Option<Seq<char>>,
    fh: Option<Seq<char>>,
    fx: Option<Seq<char>>,
) -> SearchModel {
    match s.mode {
        Mode::General => {
            if sh is Some {
                add_server(s, sh->0, Mode::InServerList)
            } else if fh is Some {
                add_suffix(s, fh->0, Mode::InSuffixList)
            } else {
                s
            }
        },
        Mode::InSuffixList => {
            if fx is Some {
                add_suffix(s, fx->0, s.mode)
            } else if sh is Some {
                add_server(s, sh->0, Mode::InServerList)
            } else {
                with_mode(s, Mode::General)
            }
        },
        Mode::InServerList => {
            if sx is Some {
                add_server(s, sx->0, s.mode)
            } else if fh is Some {
                add_suffix(s, fh->0, Mode::InSuffixList)
            } else {
                with_mode(s, Mode::General)
            }
        },
    }
}

/// The state after one more line.
pub open spec fn next(s: SearchModel, line: Seq<char>) -> SearchModel {
    step(s, servers_header(line), servers_extra(line), suffixes_header(line), suffixes_extra(line))
}

/// The state after `lines`, one after another, starting from `s`.
pub open spec fn run(s: SearchModel, lines: Seq<Seq<char>>) -> SearchModel
    decreases lines.len(),
{
    if lines.len() == 0 {
        s
    } else {
        next(run(s, lines.drop_last()), lines.last())
    }
}

/// What one extraction run over `text` collects.
pub open spec fn extraction(text: Seq<char>) -> SearchModel {
    run(initial(), lines_of(text))
}

/// The views of a sequence of owned strings.
pub open spec fn string_views(v: Seq<String>) -> Seq<Seq<char>> {
    v.map_values(|s: String| s@)
}

/// The extractor: the four compiled patterns, the mode and what was collected.
pub struct Search {
    suffixes: Vec<String>,
    servers: Vec<String>,
    mode: Mode,
    servers_header: LinePattern,
    servers_extra: LinePattern,
    suffixes_header: LinePattern,
    suffixes_extra: LinePattern,
}

impl View for Search {
    type V = SearchModel;

    closed spec fn view(&self) -> SearchModel {
        SearchModel {
            suffixes: string_views(self.suffixes@),
            servers: string_views(self.servers@),
            mode: self.mode,
        }
    }
}

/// Compiles `source` and checks that it has capture group `group`.
fn usable_pattern(source: &str, group: usize) -> (r: Option<LinePattern>)
    ensures
        r is Some <==> usable(source@, group as nat),
        r matches Some(p) ==> p@ == source@,
{
    match LinePattern::compile(source) {
        Some(p) => {
            if group < p.group_len() {
                Some(p)
            } else {
                None
            }
        },
        None => None,
    }
}

impl Search {
    /// Each pattern field holds the built-in pattern of its name.
    pub closed spec fn wf(&self) -> bool {
        &&& self.servers_header@ == SERVERS_HEADER@
        &&& self.servers_extra@ == SERVERS_EXTRA@
        &&& self.suffixes_header@ == SUFFIXES_HEADER@
        &&& self.suffixes_extra@ == SUFFIXES_EXTRA@
    }

    /// An extractor in mode `General` with nothing collected. The patterns
    /// are compiled here, once; `None` where one of them does not compile or
    /// lacks the group it is read at.
    pub fn new() -> (r: Option<Search>)
        ensures
            r is Some <==> patterns_usable(),
            r matches Some(s) ==> s.wf() && s@ == initial(),
    {
        let servers_header = match usable_pattern(SERVERS_HEADER, SERVERS_HEADER_GROUP) {
            Some(p) => p,
            None => return None,
        };
        let servers_extra = match usable_pattern(SERVERS_EXTRA, SERVERS_EXTRA_GROUP) {
            Some(p) => p,
            None => return None,
        };
        let suffixes_header = match usable_pattern(SUFFIXES_HEADER, SUFFIXES_HEADER_GROUP) {
            Some(p) => p,
            None => return None,
        };
        let suffixes_extra = match usable_pattern(SUFFIXES_EXTRA, SUFFIXES_EXTRA_GROUP) {
            Some(p) => p,
            None => return None,
        };
        let s = Search {
            suffixes: Vec::new(),
            servers: Vec::new(),
            mode: Mode::General,
            servers_header,
            servers_extra,
            suffixes_header,
            suffixes_extra,
        };
        assert(s@.suffixes =~= Seq::empty());
        assert(s@.servers =~= Seq::empty());
        Some(s)
    }

    /// Tries the servers-header pattern; on a match, appends the address and
    /// On a servers-header result, appends the address and switches to
    /// `InServerList`; on `None`, changes nothing.
    fn match_servers_header(&mut self, capture: Option<String>) -> (r: bool)
        requires
            old(self).wf(),
        ensures
            final(self).wf(),
            r == (capture is Some),
            r ==> final(self)@ == add_server(old(self)@, opt_view(capture)->0, Mode::InServerList),
            !r ==> final(self)@ == old(self)@,
    {
        match capture {
            Some(server) => {
                self.servers.push(server);
                self.mode = Mode::InServerList;
                assert(self@.servers =~= old(self)@.servers.push(opt_view(capture)->0));
                true
            },
            None => false,
        }
    }

    /// On a servers-continuation result, appends the address and keeps the
    /// mode; on `None`, changes nothing.
    fn match_servers_extra(&mut self, capture: Option<String>) -> (r: bool)
        requires
            old(self).wf(),
        ensures
            final(self).wf(),
            r == (capture is Some),
            r ==> final(self)@ == add_server(old(self)@, opt_view(capture)->0, old(self)@.mode),
            !r ==> final(self)@ == old(self)@,
    {
        match capture {
            Some(server) => {
                self.servers.push(server);
                assert(self@.servers =~= old(self)@.servers.push(opt_view(capture)->0));
                true
            },
            None => false,
        }
    }

    /// On a suffixes-header result, appends the suffix and switches to
    /// `InSuffixList`; on `None`, changes nothing.
    fn match_suffixes_header(&mut self, capture: Option<String>) -> (r: bool)
        requires
            old(self).wf(),
        ensures
            final(self).wf(),
            r == (capture is Some),
            r ==> final(self)@ == add_suffix(old(self)@, opt_view(capture)->0, Mode::InSuffixList),
            !r ==> final(self)@ == old(self)@,
    {
        match capture {
            Some(suffix) => {
                self.suffixes.push(suffix);
                self.mode = Mode::InSuffixList;
                assert(self@.suffixes =~= old(self)@.suffixes.push(opt_view(capture)->0));
                true
            },
            None => false,
        }
    }

    /// On a suffixes-continuation result, appends the suffix and keeps the
    /// mode; on `None`, changes nothing.
    fn match_suffixes_extra(&mut self, capture: Option<String>) -> (r: bool)
        requires
            old(self).wf(),
        ensures
            final(self).wf(),
            r == (capture is Some),
            r ==> final(self)@ == add_suffix(old(self)@, opt_view(capture)->0, old(self)@.mode),
            !r ==> final(self)@ == old(self)@,
    {
        match capture {
            Some(suffix) => {
                self.suffixes.push(suffix);
                assert(self@.suffixes =~= old(self)@.suffixes.push(opt_view(capture)->0));
                true
            },
            None => false,
        }
    }

    /// Runs the matching cascade of the current mode on the results of the
    /// four patterns for one line: `servers_header`, `servers_extra`,
    /// `suffixes_header` and `suffixes_extra`. Results the current mode does
    /// not try are ignored.
    pub fn process_captures(
        &mut self,
        servers_header: Option<String>,
        servers_extra: Option<String>,
        suffixes_header: Option<String>,
        suffixes_extra: Option<String>,
    )
        requires
            old(self).wf(),
        ensures
            final(self).wf(),
            final(self)@ == step(
                old(self)@,
                opt_view(servers_header),
                opt_view(servers_extra),
                opt_view(suffixes_header),
                opt_view(suffixes_extra),
            ),
    {
        match self.mode {
            Mode::General => {
                if !self.match_servers_header(servers_header) {
                    self.match_suffixes_header(suffixes_header);
                }
            },
            Mode::InSuffixList => {
                if !self.match_suffixes_extra(suffixes_extra) {
                    if !self.match_servers_header(servers_header) {
                        self.mode = Mode::General;
                    }
                }
            },
            Mode::InServerList => {
                if !self.match_servers_extra(servers_extra) {
                    if !self.match_suffixes_header(suffixes_header) {
                        self.mode = Mode::General;
                    }
                }
            },
        }
    }

    /// Feeds one line (without its line feed) to the extractor. Only the
    /// patterns the cascade reaches are tried. An entry that is added is a
    /// piece of `line`.
    pub fn process_line(&mut self, line: &str)
        requires
            old(self).wf(),
        ensures
            final(self).wf(),
            final(self)@ == next(old(self)@, line@),
            final(self)@.servers.len() == old(self)@.servers.len() + 1 ==> is_piece_of(
                final(self)@.servers.last(),
                line@,
            ),
            final(self)@.suffixes.len() == old(self)@.suffixes.len() + 1 ==> is_piece_of(
                final(self)@.suffixes.last(),
                line@,
            ),
    {
        match self.mode {
            Mode::General => {
                let sh = self.servers_header.capture(line, SERVERS_HEADER_GROUP);
                let fh = match sh {
                    Some(_) => None,
                    None => self.suffixes_header.capture(line, SUFFIXES_HEADER_GROUP),
                };
                self.process_captures(sh, None, fh, None);
            },
            Mode::InSuffixList => {
                let fx = self.suffixes_extra.capture(line, SUFFIXES_EXTRA_GROUP);
                let sh = match fx {
                    Some(_) => None,
                    None => self.servers_header.capture(line, SERVERS_HEADER_GROUP),
                };
                self.process_captures(sh, None, None, fx);
            },
            Mode::InServerList => {
                let sx = self.servers_extra.capture(line, SERVERS_EXTRA_GROUP);
                let fh = match sx {
                    Some(_) => None,
                    None => self.suffixes_header.capture(line, SUFFIXES_HEADER_GROUP),
                };
                self.process_captures(None, sx, fh, None);
            },
        }
    }

    /// Feeds every line of `text`, split on line feeds, in order.
    pub fn process_text(&mut self, text: &str)
        requires
            old(self).wf(),
        ensures
            final(self).wf(),
            final(self)@ == run(old(self)@, lines_of(text@)),
    {
        let lines = split_lines(text);
        let ghost all = lines_of(text@);
        let ghost start = self@;
        let mut i: usize = 0;
        while i < lines.len()
            invariant
                self.wf(),
                i <= lines.len(),
                str_views(lines@) == all,
                self@ == run(start, all.take(i as int)),
            decreases lines.len() - i,
        {
            self.process_line(lines[i]);
            assert(all.take(i + 1).drop_last() =~= all.take(i as int));
            i += 1;
        }
        assert(all.take(i as int) =~= all);
    }

    /// The suffixes collected so far, in the order their lines came.
    pub fn suffixes(&self) -> (r: &Vec<String>)
        ensures
            string_views(r@) == self@.suffixes,
    {
        &self.suffixes
    }

    /// The server addresses collected so far, in the order their lines came.
    pub fn servers(&self) -> (r: &Vec<String>)
        ensures
            string_views(r@) == self@.servers,
    {
        &self.servers
    }

    /// The current mode.
    pub fn mode(&self) -> (r: Mode)
        ensures
            r == self@.mode,
    {
        self.mode
    }


    /// Gives up the extractor for what it collected.
    pub fn into_extraction(self) -> (r: Extraction)
        ensures
            string_views(r.suffixes@) == self@.suffixes,
            string_views(r.servers@) == self@.servers,
    {
        Extraction { suffixes: self.suffixes, servers: self.servers }
    }


    /// The resolver configuration file for what was collected so far.
    pub fn generate_resolv_conf(&self) -> (r: String)
        ensures
            r@ == resolv_conf(self@.suffixes, self@.servers),
    {
        generate(self.suffixes.as_slice(), self.servers.as_slice())
    }

}

/// The result of one extraction run: the search suffixes and the server
/// addresses, each in the order their lines came.
pub struct Extraction {
    pub suffixes: Vec<String>,
    pub servers: Vec<String>,
}

/// Runs one extraction over `text`. `None` only where the built-in patterns
/// are unusable, which does not depend on `text`.
pub fn extract(text: &str) -> (r: Option<Extraction>)
    ensures
        r is Some <==> patterns_usable(),
        r matches Some(e) ==> string_views(e.suffixes@) == extraction(text@).suffixes
            && string_views(e.servers@) == extraction(text@).servers,
{
    match Search::new() {
        Some(mut search) => {
            search.process_text(text);
            Some(search.into_extraction())
        },
        None => None,
    }
}

} // verus!
