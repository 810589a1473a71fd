//! Finding the executable of the client: the well-known installation path
//! first, then the path that the registry records for the client's icon.

use vstd::prelude::*;
use crate::text::{
    chars_contain, chars_find, chars_index_of, chars_slice, chars_trim, contains,
    first_occurrence, index_of, occurs_at, to_chars, trimmed,
};

verus! {

/// The well-known installation path of the client.
pub open spec fn standard_path() -> Seq<char> {
    "C:\\Program Files (x86)\\Battle.net\\Battle.net.exe"@
}

/// The registry key that records the client's capabilities.
pub open spec fn registry_key() -> Seq<char> {
    "HKLM\\SOFTWARE\\WOW6432Node\\Blizzard Entertainment\\Battle.net\\Capabilities"@
}

/// The name of the registry value that holds the path of the client's icon.
pub open spec fn registry_value() -> Seq<char> {
    "ApplicationIcon"@
}

/// The marker that stands between the name and the data of a registry value
/// in the output of a registry query.
pub open spec fn type_marker() -> Seq<char> {
    "REG_SZ"@
}

/// The arguments of the registry query: the key, and the value asked for.
pub fn registry_query() -> (arguments: Vec<String>)
    ensures
        arguments@.len() == 4,
        arguments@[0]@ == "query"@,
        arguments@[1]@ == registry_key(),
        arguments@[2]@ == "/v"@,
        arguments@[3]@ == registry_value(),
{
    let mut arguments: Vec<String> = Vec::new();
    arguments.push(String::from_str("query"));
    arguments.push(
        String::from_str(
            "HKLM\\SOFTWARE\\WOW6432Node\\Blizzard Entertainment\\Battle.net\\Capabilities",
        ),
    );
    arguments.push(String::from_str("/v"));
    arguments.push(String::from_str("ApplicationIcon"));
    arguments
}

/// The end of the line that begins at `from`: the position of the next line
/// feed, or the end of the text.
pub open spec fn line_end(s: Seq<char>, from: int) -> int {
    match index_of(s, '\n', from) {
        Some(at) => at,
        None => s.len() as int,
    }
}

/// The bounds of the first line, beginning at or after `from`, that holds
/// the name of the registry value.
pub open spec fn icon_line(s: Seq<char>, from: int) -> Option<(int, int)>
    decreases s.len() - from,
{
    if from < 0 || from >= s.len() {
        None
    } else {
        let end = line_end(s, from);
        if from <= end <= s.len() && contains(s.subrange(from, end), registry_value()) {
            Some((from, end))
        } else if from <= end < s.len() {
            icon_line(s, end + 1)
        } else {
            None
        }
    }
}

/// The data of the value where the line sets it in quotes: what stands
/// between the first quote and the next. A quote that is not closed gives
/// nothing.
pub open spec fn quoted_value(line: Seq<char>) -> Option<Seq<char>> {
    match index_of(line, '"', 0) {
        Some(open) => match index_of(line, '"', open + 1) {
            Some(close) => Some(line.subrange(open + 1, close)),
            None => None,
        },
        None => None,
    }
}

/// The data of the value where the line has no quotes: what stands between
/// the first type marker and the next, or the end of the line, without the
/// white space around it and cut at its first comma.
pub open spec fn bare_value(line: Seq<char>) -> Option<Seq<char>> {
    if exists|at: int| first_occurrence(line, type_marker(), 0, at) {
        let at = choose|at: int| first_occurrence(line, type_marker(), 0, at);
        let rest = line.skip(at + type_marker().len());
        let field = if exists|next: int| first_occurrence(rest, type_marker(), 0, next) {
            rest.take(choose|next: int| first_occurrence(rest, type_marker(), 0, next))
        } else {
            rest
        };
        let value = trimmed(field);
        match index_of(value, ',', 0) {
            Some(comma) => Some(value.take(comma)),
            None => Some(value),
        }
    } else {
        None
    }
}

/// The path that a line of the output of the registry query records.
pub open spec fn line_candidate(line: Seq<char>) -> Option<Seq<char>> {
    if index_of(line, '"', 0) is Some {
        quoted_value(line)
    } else {
        bare_value(line)
    }
}

/// The path that the output of the registry query records for the client:
/// that of the first line that holds the name of the value.
pub open spec fn registry_path(output: Seq<char>) -> Option<Seq<char>> {
    match icon_line(output, 0) {
        Some((from, to)) => line_candidate(output.subrange(from, to)),
        None => None,
    }
}

/// The position of the first occurrence of a text is unique.
proof fn lemma_first_occurrence_unique(hay: Seq<char>, needle: Seq<char>, a: int, b: int)
    requires
        first_occurrence(hay, needle, 0, a),
        first_occurrence(hay, needle, 0, b),
    ensures
        a == b,
{
}

/// The bounds, in `line`, of the path that the line records.
fn candidate_bounds(line: &Vec<char>) -> (r: Option<(usize, usize)>)
    ensures
        match r {
            Some((from, to)) => from <= to <= line.len() && line_candidate(line@) == Some(
                line@.subrange(from as int, to as int),
            ),
            None => line_candidate(line@) is None,
        },
{
    match chars_index_of(line, '"', 0) {
        Some(open) => {
            match chars_index_of(line, '"', open + 1) {
                Some(close) => Some((open + 1, close)),
                None => None,
            }
        },
        None => {
            let marker = to_chars("REG_SZ");
            match chars_find(line, &marker, 0) {
                None => {
                    assert(!exists|at: int| first_occurrence(line@, type_marker(), 0, at));
                    None
                },
                Some(at) => {
                    proof {
                        let other = choose|k: int| first_occurrence(line@, type_marker(), 0, k);
                        lemma_first_occurrence_unique(line@, type_marker(), at as int, other);
                    }
                    let total: usize = line.len();
                    assert(occurs_at(line@, marker@, at as int));
                    let begin: usize = at + marker.len();
                    let rest = chars_slice(line, begin, line.len());
                    assert(rest@ =~= line@.skip(at + type_marker().len()));
                    let stop: usize = match chars_find(&rest, &marker, 0) {
                        Some(next) => {
                            proof {
                                let other = choose|k: int|
                                    first_occurrence(rest@, type_marker(), 0, k);
                                lemma_first_occurrence_unique(
                                    rest@,
                                    type_marker(),
                                    next as int,
                                    other,
                                );
                            }
                            next
                        },
                        None => {
                            assert(!exists|k: int| first_occurrence(rest@, type_marker(), 0, k));
                            rest.len()
                        },
                    };
                    let field = chars_slice(&rest, 0, stop);
                    assert(field@ =~= if stop < rest.len() {
                        rest@.take(stop as int)
                    } else {
                        rest@
                    });
                    let (from, to) = chars_trim(&field);
                    let value = chars_slice(&field, from, to);
                    let cut: usize = match chars_index_of(&value, ',', 0) {
                        Some(comma) => comma,
                        None => value.len(),
                    };
                    proof {
                        let found = if cut < value.len() {
                            value@.take(cut as int)
                        } else {
                            value@
                        };
                        assert(bare_value(line@) == Some(found));
                        assert(found =~= line@.subrange(
                            begin + from as int,
                            begin + from + cut as int,
                        ));
                    }
                    Some((begin + from, begin + from + cut))
                },
            }
        },
    }
}

/// Reads, from the output of the registry query, the path that the registry
/// records for the client.
pub fn registry_candidate(output: &str) -> (r: Option<String>)
    ensures
        r.deep_view() == registry_path(output@),
{
    let chars = to_chars(output);
    let name = to_chars("ApplicationIcon");
    let mut from: usize = 0;
    while from < chars.len()
        invariant
            chars@ == output@,
            name@ == registry_value(),
            icon_line(chars@, 0) == icon_line(chars@, from as int),
        decreases chars.len() - from,
    {
        let end: usize = match chars_index_of(&chars, '\n', from) {
            Some(at) => at,
            None => chars.len(),
        };
        let line = chars_slice(&chars, from, end);
        if chars_contain(&line, &name) {
            return match candidate_bounds(&line) {
                Some((a, b)) => {
                    assert(line@.subrange(a as int, b as int) =~= output@.subrange(
                        from + a as int,
                        from + b as int,
                    ));
                    Some(String::from_str(output.substring_char(from + a, from + b)))
                },
                None => None,
            };
        }
        if end >= chars.len() {
            return None;
        }
        from = end + 1;
    }
    None
}

/// Where the search for the executable stands.
#[derive(Debug, Clone, PartialEq, Eq)]
pub enum Discovery<S> {
    /// The well-known path is being probed.
    ProbingStandard,
    /// The registry is being queried.
    QueryingRegistry,
    /// The path that the registry records is being probed.
    ProbingCandidate(S),
    /// The search is over: the executable, if one was found.
    Done(Option<S>),
}

impl View for Discovery<String> {
    type V = Discovery<Seq<char>>;

    open spec fn view(&self) -> Self::V {
        match self {
            Discovery::ProbingStandard => Discovery::ProbingStandard,
            Discovery::QueryingRegistry => Discovery::QueryingRegistry,
            Discovery::ProbingCandidate(p) => Discovery::ProbingCandidate(p@),
            Discovery::Done(found) => Discovery::Done(found.deep_view()),
        }
    }
}

/// The one outside operation that the search asks for next.
#[derive(Debug, Clone, PartialEq, Eq)]
pub enum DiscoveryAction<S> {
    /// Tell whether a file exists at this path.
    Probe(S),
    /// Query the registry with the arguments of [`registry_query`].
    QueryRegistry,
    /// Nothing more.
    Finished,
}

impl View for DiscoveryAction<String> {
    type V = DiscoveryAction<Seq<char>>;

    open spec fn view(&self) -> Self::V {
        match self {
            DiscoveryAction::Probe(p) => DiscoveryAction::Probe(p@),
            DiscoveryAction::QueryRegistry => DiscoveryAction::QueryRegistry,
            DiscoveryAction::Finished => DiscoveryAction::Finished,
        }
    }
}

/// How one outside operation of the search ended.
#[derive(Debug, Clone, PartialEq, Eq)]
pub enum DiscoveryEvent<S> {
    /// Whether the file exists.
    Probed(bool),
    /// The output of the registry query, or `None` where it could not be run.
    Queried(Option<S>),
}

impl View for DiscoveryEvent<String> {
    type V = DiscoveryEvent<Seq<char>>;

    open spec fn view(&self) -> Self::V {
        match self {
            DiscoveryEvent::Probed(found) => DiscoveryEvent::Probed(*found),
            DiscoveryEvent::Queried(output) => DiscoveryEvent::Queried(output.deep_view()),
        }
    }
}

/// The operation that the search asks for.
pub open spec fn discovery_action(stage: Discovery<Seq<char>>) -> DiscoveryAction<Seq<char>> {
    match stage {
        Discovery::ProbingStandard => DiscoveryAction::Probe(standard_path()),
        Discovery::QueryingRegistry => DiscoveryAction::QueryRegistry,
        Discovery::ProbingCandidate(p) => DiscoveryAction::Probe(p),
        Discovery::Done(_) => DiscoveryAction::Finished,
    }
}

/// The search after an operation ended. The well-known path is the
/// executable if a file exists there. Else the registry is asked; the path
/// that it records is the executable if a file exists there. In every other
/// case there is none. An answer that was not asked for changes nothing.
pub open spec fn discovery_step(stage: Discovery<Seq<char>>, event: DiscoveryEvent<Seq<char>>) -> Discovery<
    Seq<char>,
> {
    match (stage, event) {
        (Discovery::ProbingStandard, DiscoveryEvent::Probed(true)) => Discovery::Done(
            Some(standard_path()),
        ),
        (Discovery::ProbingStandard, DiscoveryEvent::Probed(false)) => Discovery::QueryingRegistry,
        (Discovery::QueryingRegistry, DiscoveryEvent::Queried(None)) => Discovery::Done(None),
        (Discovery::QueryingRegistry, DiscoveryEvent::Queried(Some(output))) => match registry_path(
            output,
        ) {
            Some(p) => Discovery::ProbingCandidate(p),
            None => Discovery::Done(None),
        },
        (Discovery::ProbingCandidate(p), DiscoveryEvent::Probed(true)) => Discovery::Done(Some(p)),
        (Discovery::ProbingCandidate(p), DiscoveryEvent::Probed(false)) => Discovery::Done(None),
        _ => stage,
    }
}

/// Begins the search for the executable of the client.
pub fn get_bnet_path() -> (search: Discovery<String>)
    ensures
        search@ == Discovery::<Seq<char>>::ProbingStandard,
{
    Discovery::ProbingStandard
}

impl Discovery<String> {
    /// The operation that the search asks for.
    pub fn action(&self) -> (action: DiscoveryAction<String>)
        ensures
            action@ == discovery_action(self@),
    {
        match self {
            Discovery::ProbingStandard => DiscoveryAction::Probe(
                String::from_str("C:\\Program Files (x86)\\Battle.net\\Battle.net.exe"),
            ),
            Discovery::QueryingRegistry => DiscoveryAction::QueryRegistry,
            Discovery::ProbingCandidate(p) => DiscoveryAction::Probe(p.clone()),
            Discovery::Done(_) => DiscoveryAction::Finished,
        }
    }

    /// Takes the answer to the operation asked for.
    pub fn step(self, event: DiscoveryEvent<String>) -> (next: Discovery<String>)
        ensures
            next@ == discovery_step(self@, event@),
    {
        match self {
            Discovery::ProbingStandard => match event {
                DiscoveryEvent::Probed(true) => Discovery::Done(
                    Some(String::from_str("C:\\Program Files (x86)\\Battle.net\\Battle.net.exe")),
                ),
                DiscoveryEvent::Probed(false) => Discovery::QueryingRegistry,
                _ => Discovery::ProbingStandard,
            },
            Discovery::QueryingRegistry => match event {
                DiscoveryEvent::Queried(None) => Discovery::Done(None),
                DiscoveryEvent::Queried(Some(output)) => match registry_candidate(output.as_str()) {
                    Some(p) => Discovery::ProbingCandidate(p),
                    None => Discovery::Done(None),
                },
                _ => Discovery::QueryingRegistry,
            },
            Discovery::ProbingCandidate(p) => match event {
                DiscoveryEvent::Probed(true) => Discovery::Done(Some(p)),
                DiscoveryEvent::Probed(false) => Discovery::Done(None),
                _ => Discovery::ProbingCandidate(p),
            },
            Discovery::Done(found) => Discovery::Done(found),
        }
    }

    /// The executable, once the search is over and found one.
    pub fn found(self) -> (r: Option<String>)
        ensures
            r.deep_view() == match self@ {
                Discovery::Done(found) => found,
                _ => None,
            },
    {
        match self {
            Discovery::Done(found) => found,
            _ => None,
        }
    }
}

/// The executable that the search ends with exists: a search ends with a
/// path only by the answer that a file exists at the path that it had asked
/// to probe; and the registry is asked only after the well-known path was
/// found missing.
pub proof fn law_found_path_was_probed(stage: Discovery<Seq<char>>, event: DiscoveryEvent<Seq<char>>)
    ensures
        !(stage is Done) && discovery_step(stage, event) is Done && discovery_step(
            stage,
            event,
        )->Done_0 is Some ==> {
            &&& event == DiscoveryEvent::<Seq<char>>::Probed(true)
            &&& discovery_action(stage) == DiscoveryAction::Probe(
                discovery_step(stage, event)->Done_0->0,
            )
        },
        discovery_step(stage, event) is QueryingRegistry && !(stage is QueryingRegistry) ==> stage
            is ProbingStandard && event == DiscoveryEvent::<Seq<char>>::Probed(false),
{
}

} // verus!
