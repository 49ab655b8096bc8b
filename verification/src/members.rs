//! Where the members of a JSON text stand, and which name an object repeats.
//!
//! The scan follows brackets, commas and strings. Up to the first fault of a text it finds exactly the
//! names of its members; whether a text is sound up to a point is for the parser to say.

use serde_json::Value;
use std::collections::HashMap;
use vstd::prelude::*;
use vstd::std_specs::hash::*;
use vstd::string::*;
use vstd::utf8::*;

use crate::json::{layer_of, parse_value, parsed_json, value_json, JsonView, ValueLayer};
use crate::text::{decimal, decimal_text, joined, joined3, same_text, text_of};

verus! {

/// A bracket that is open; every bracket of a text has a number of its own.
#[derive(Clone, Copy, Debug, PartialEq, Eq, Structural)]
pub struct Bracket {
    pub object: bool,
    pub number: usize,
}

/// The name of a member: the object that it belongs to, and where its literal begins and ends, the
/// quotation marks included.
#[derive(Clone, Copy, Debug, PartialEq, Eq, Structural)]
pub struct MemberSite {
    pub object: usize,
    pub start: usize,
    pub end: usize,
}

/// How far a JSON text has been scanned.
pub struct MemberScan {
    pub nesting: Seq<Bracket>,
    pub opened: nat,
    /// The next string is the name of a member.
    pub wants_name: bool,
    pub in_string: bool,
    pub escaped: bool,
    /// The string that is being read is the name of a member.
    pub naming: bool,
    pub start: nat,
    pub sites: Seq<MemberSite>,
}

/// Whether the innermost open bracket is that of an object.
pub open spec fn in_object(nesting: Seq<Bracket>) -> bool {
    nesting.len() > 0 && nesting.last().object
}

/// The scan after one more byte, which stands at `at`.
pub open spec fn scanned_byte(scan: MemberScan, byte: u8, at: nat) -> MemberScan {
    if scan.in_string {
        if scan.escaped {
            MemberScan { escaped: false, ..scan }
        } else if byte == 92 {
            MemberScan { escaped: true, ..scan }
        } else if byte == 34 {
            MemberScan {
                in_string: false,
                naming: false,
                sites: if scan.naming {
                    scan.sites.push(
                        MemberSite {
                            object: scan.nesting.last().number,
                            start: scan.start as usize,
                            end: (at + 1) as usize,
                        },
                    )
                } else {
                    scan.sites
                },
                ..scan
            }
        } else {
            scan
        }
    } else if byte == 34 {
        MemberScan {
            in_string: true,
            naming: scan.wants_name && in_object(scan.nesting),
            wants_name: false,
            start: at,
            ..scan
        }
    } else if byte == 123 || byte == 91 {
        MemberScan {
            nesting: scan.nesting.push(
                Bracket { object: byte == 123, number: scan.opened as usize },
            ),
            opened: scan.opened + 1,
            wants_name: byte == 123,
            ..scan
        }
    } else if byte == 125 || byte == 93 {
        MemberScan {
            nesting: if scan.nesting.len() > 0 {
                scan.nesting.drop_last()
            } else {
                scan.nesting
            },
            wants_name: false,
            ..scan
        }
    } else if byte == 44 {
        MemberScan { wants_name: in_object(scan.nesting), ..scan }
    } else {
        scan
    }
}

/// The scan of a text.
pub open spec fn scanned(text: Seq<u8>) -> MemberScan
    decreases text.len(),
{
    if text.len() == 0 {
        MemberScan {
            nesting: Seq::empty(),
            opened: 0,
            wants_name: false,
            in_string: false,
            escaped: false,
            naming: false,
            start: 0,
            sites: Seq::empty(),
        }
    } else {
        scanned_byte(scanned(text.drop_last()), text.last(), (text.len() - 1) as nat)
    }
}

/// The brackets that close `nesting`, the innermost first.
pub open spec fn closers(nesting: Seq<Bracket>) -> Seq<u8>
    decreases nesting.len(),
{
    if nesting.len() == 0 {
        Seq::empty()
    } else {
        seq![
            if nesting.last().object {
                125u8
            } else {
                93u8
            },
        ] + closers(nesting.drop_last())
    }
}

/// The part of a text up to the end of a member's name, made whole: the member is null, and what is
/// open is closed. The parser takes it exactly where the text has no fault up to there.
pub open spec fn closed_prefix_of(text: Seq<u8>, end: int) -> Seq<u8> {
    text.take(end) + seq![58u8, 110u8, 117u8, 108u8, 108u8] + closers(
        scanned(text.take(end)).nesting,
    )
}

/// What the parser makes of bytes, where they are text.
pub open spec fn bytes_json(bytes: Seq<u8>) -> Option<JsonView> {
    if valid_utf8(bytes) {
        match parsed_json(decode_utf8(bytes)) {
            Ok(json) => Some(json),
            Err(_) => None,
        }
    } else {
        None
    }
}

/// The name that a literal denotes. Two literals may spell one name differently.
pub open spec fn literal_name(literal: Seq<u8>) -> Option<Seq<char>> {
    match bytes_json(literal) {
        Some(JsonView::Text(name)) => Some(name),
        _ => None,
    }
}

/// The names at the given sites of a text.
pub open spec fn names_at(text: Seq<u8>, sites: Seq<MemberSite>) -> Seq<Option<Seq<char>>> {
    Seq::new(
        sites.len(),
        |i: int| literal_name(text.subrange(sites[i].start as int, sites[i].end as int)),
    )
}

/// Whether two members belong to one object and have one name.
pub open spec fn same_member(
    sites: Seq<MemberSite>,
    names: Seq<Option<Seq<char>>>,
    i: int,
    j: int,
) -> bool {
    sites[i].object == sites[j].object && names[i] is Some && names[i] == names[j]
}

/// Whether the member at `j` repeats the name of an earlier one of its object.
pub open spec fn is_repeat(sites: Seq<MemberSite>, names: Seq<Option<Seq<char>>>, j: int) -> bool {
    exists|i: int| 0 <= i < j && #[trigger] same_member(sites, names, i, j)
}

/// The first of the first `n` members that repeats a name.
pub open spec fn first_repeat(
    sites: Seq<MemberSite>,
    names: Seq<Option<Seq<char>>>,
    n: nat,
) -> Option<nat>
    decreases n,
{
    if n == 0 {
        None
    } else {
        match first_repeat(sites, names, (n - 1) as nat) {
            Some(j) => Some(j),
            None => if is_repeat(sites, names, n - 1) {
                Some((n - 1) as nat)
            } else {
                None
            },
        }
    }
}

/// Where the first repeated name of a text ends, if the text has no fault before that.
pub open spec fn repeated_name(text: Seq<u8>) -> Option<usize> {
    let sites = scanned(text).sites;
    match first_repeat(sites, names_at(text, sites), sites.len()) {
        Some(j) => if bytes_json(closed_prefix_of(text, sites[j as int].end as int)) is Some {
            Some(sites[j as int].end)
        } else {
            None
        },
        None => None,
    }
}

/// What a scan has found when it stands before `text[n]`: its sites lie in the text, in order.
pub open spec fn sites_lie_in(sites: Seq<MemberSite>, n: int) -> bool {
    forall|i: int|
        0 <= i < sites.len() ==> (#[trigger] sites[i]).start < sites[i].end <= n
}

/// The state of a scan that runs.
struct Scanner {
    nesting: Vec<Bracket>,
    opened: usize,
    wants_name: bool,
    in_string: bool,
    escaped: bool,
    naming: bool,
    start: usize,
    sites: Vec<MemberSite>,
}

impl View for Scanner {
    type V = MemberScan;

    closed spec fn view(&self) -> MemberScan {
        MemberScan {
            nesting: self.nesting@,
            opened: self.opened as nat,
            wants_name: self.wants_name,
            in_string: self.in_string,
            escaped: self.escaped,
            naming: self.naming,
            start: self.start as nat,
            sites: self.sites@,
        }
    }
}

impl Scanner {
    fn new() -> (scanner: Self)
        ensures
            scanner@ == scanned(Seq::empty()),
    {
        Scanner {
            nesting: Vec::new(),
            opened: 0,
            wants_name: false,
            in_string: false,
            escaped: false,
            naming: false,
            start: 0,
            sites: Vec::new(),
        }
    }

    fn is_in_object(&self) -> (r: bool)
        ensures
            r == in_object(self@.nesting),
    {
        self.nesting.len() > 0 && self.nesting[self.nesting.len() - 1].object
    }

    fn take_byte(&mut self, byte: u8, at: usize)
        requires
            at < usize::MAX,
            old(self)@.opened <= at,
            old(self)@.naming ==> old(self)@.in_string && old(self)@.nesting.len() > 0,
        ensures
            final(self)@ == scanned_byte(old(self)@, byte, at as nat),
            final(self)@.opened <= at + 1,
            final(self)@.naming ==> final(self)@.in_string && final(self)@.nesting.len() > 0,
    {
        if self.in_string {
            if self.escaped {
                self.escaped = false;
            } else if byte == 92 {
                self.escaped = true;
            } else if byte == 34 {
                if self.naming {
                    let object = self.nesting[self.nesting.len() - 1].number;
                    self.sites.push(MemberSite { object, start: self.start, end: at + 1 });
                }
                self.in_string = false;
                self.naming = false;
            }
        } else if byte == 34 {
            self.in_string = true;
            self.naming = self.wants_name && self.is_in_object();
            self.wants_name = false;
            self.start = at;
        } else if byte == 123 || byte == 91 {
            self.nesting.push(Bracket { object: byte == 123, number: self.opened });
            self.opened = self.opened + 1;
            self.wants_name = byte == 123;
        } else if byte == 125 || byte == 93 {
            if self.nesting.len() > 0 {
                self.nesting.pop();
            }
            self.wants_name = false;
        } else if byte == 44 {
            self.wants_name = self.is_in_object();
        }
    }
}

fn scan(text: &Vec<u8>, end: usize) -> (scanner: Scanner)
    requires
        end <= text.len(),
    ensures
        scanner@ == scanned(text@.take(end as int)),
        sites_lie_in(scanner@.sites, end as int),
{
    let mut scanner = Scanner::new();
    let mut i: usize = 0;
    assert(text@.take(0) =~= Seq::<u8>::empty());
    while i < end
        invariant
            i <= end <= text.len(),
            scanner@ == scanned(text@.take(i as int)),
            scanner@.opened <= i,
            scanner@.naming ==> scanner@.in_string && scanner@.nesting.len() > 0,
            scanner@.in_string ==> scanner@.start < i,
            sites_lie_in(scanner@.sites, i as int),
        decreases end - i,
    {
        assert(text@.take(i + 1).drop_last() =~= text@.take(i as int));
        assert(text@.take(i + 1).last() == text@[i as int]);
        scanner.take_byte(text[i], i);
        i = i + 1;
    }
    scanner
}

/// Finds the names of the members of a text.
pub fn member_sites(text: &Vec<u8>) -> (sites: Vec<MemberSite>)
    ensures
        sites@ == scanned(text@).sites,
        sites_lie_in(sites@, text@.len() as int),
{
    let scanner = scan(text, text.len());
    assert(text@.take(text@.len() as int) =~= text@);
    scanner.sites
}

/// Makes the part of a text up to the end of a member's name whole.
pub fn closed_prefix(text: &Vec<u8>, end: usize) -> (bytes: Vec<u8>)
    requires
        end <= text.len(),
    ensures
        bytes@ == closed_prefix_of(text@, end as int),
{
    let mut bytes = slice_of(text, 0, end);
    assert(text@.subrange(0, end as int) =~= text@.take(end as int));
    bytes.push(58);
    bytes.push(110);
    bytes.push(117);
    bytes.push(108);
    bytes.push(108);
    let mut nesting = scan(text, end).nesting;
    let ghost open = nesting@;
    let ghost head = text@.take(end as int) + seq![58u8, 110u8, 117u8, 108u8, 108u8];
    assert(bytes@ =~= head);
    assert(head + closers(open) =~= bytes@ + closers(nesting@));
    while nesting.len() > 0
        invariant
            head + closers(open) == bytes@ + closers(nesting@),
        decreases nesting.len(),
    {
        let ghost before = nesting@;
        let ghost written = bytes@;
        if let Some(bracket) = nesting.pop() {
            bytes.push(
                if bracket.object {
                    125
                } else {
                    93
                },
            );
            assert(nesting@ =~= before.drop_last());
            assert(written + closers(before) =~= bytes@ + closers(nesting@));
        }
    }
    assert(bytes@ + closers(nesting@) =~= bytes@);
    bytes
}

fn slice_of(text: &Vec<u8>, from: usize, to: usize) -> (part: Vec<u8>)
    requires
        from <= to <= text.len(),
    ensures
        part@ == text@.subrange(from as int, to as int),
{
    let mut part: Vec<u8> = Vec::new();
    let mut i = from;
    while i < to
        invariant
            from <= i <= to <= text.len(),
            part@ == text@.subrange(from as int, i as int),
        decreases to - i,
    {
        part.push(text[i]);
        i = i + 1;
        assert(part@ =~= text@.subrange(from as int, i as int));
    }
    part
}

fn parse_bytes(bytes: &Vec<u8>) -> (value: Option<Value>)
    ensures
        match value {
            Some(value) => bytes_json(bytes@) == Some(value_json(value)),
            None => bytes_json(bytes@) is None,
        },
{
    match text_of(bytes) {
        Ok(text) => {
            proof {
                encode_utf8_decode_utf8(text@);
                assert(text@ == decode_utf8(bytes@));
            }
            match parse_value(text) {
                Ok(value) => Some(value),
                Err(_) => None,
            }
        },
        Err(_) => None,
    }
}

/// What a list of optional texts says.
pub open spec fn texts_view(texts: Seq<Option<String>>) -> Seq<Option<Seq<char>>> {
    Seq::new(
        texts.len(),
        |i: int|
            match texts[i] {
                Some(text) => Some(text@),
                None => None,
            },
    )
}

/// Reads the names at the given sites of a text; a literal that is no JSON string has none.
pub fn read_names(text: &Vec<u8>, sites: &Vec<MemberSite>) -> (names: Vec<Option<String>>)
    requires
        sites_lie_in(sites@, text@.len() as int),
    ensures
        texts_view(names@) == names_at(text@, sites@),
{
    let mut names: Vec<Option<String>> = Vec::new();
    let mut i: usize = 0;
    while i < sites.len()
        invariant
            i <= sites.len(),
            sites_lie_in(sites@, text@.len() as int),
            texts_view(names@) == names_at(text@, sites@).take(i as int),
        decreases sites.len() - i,
    {
        let site = sites[i];
        assert(sites@[i as int] == site);
        let literal = slice_of(text, site.start, site.end);
        let name = match parse_bytes(&literal) {
            Some(value) => match layer_of(&value) {
                ValueLayer::Text(name) => Some(name),
                _ => None,
            },
            None => None,
        };
        let ghost before = names@;
        names.push(name);
        i = i + 1;
        assert(texts_view(names@) =~= texts_view(before).push(
            literal_name(text@.subrange(site.start as int, site.end as int)),
        ));
        assert(texts_view(names@) =~= names_at(text@, sites@).take(i as int));
    }
    assert(texts_view(names@) =~= names_at(text@, sites@));
    names
}

/// A number for a member's name, the same for equal names of one object.
spec fn mixed(bytes: Seq<u8>, seed: u64) -> u64
    decreases bytes.len(),
{
    if bytes.len() == 0 {
        seed
    } else {
        mixed(bytes.drop_last(), seed).wrapping_mul(0x0100_0000_01b3).wrapping_add(
            bytes.last() as u64,
        )
    }
}

fn mix(name: &str, seed: u64) -> (number: u64)
    ensures
        number == mixed(encode_utf8(name@), seed),
{
    let bytes = name.as_bytes();
    let ghost all = bytes@;
    let mut number = seed;
    let mut i: usize = 0;
    assert(all.take(0) =~= Seq::<u8>::empty());
    while i < bytes.len()
        invariant
            i <= bytes.len(),
            all == bytes@,
            number == mixed(all.take(i as int), seed),
        decreases bytes.len() - i,
    {
        assert(all.take(i + 1).drop_last() =~= all.take(i as int));
        assert(all.take(i + 1).last() == bytes@[i as int]);
        number = number.wrapping_mul(0x0100_0000_01b3).wrapping_add(bytes[i] as u64);
        i = i + 1;
    }
    assert(all.take(i as int) =~= all);
    number
}

spec fn member_number(site: MemberSite, name: Seq<char>) -> u64 {
    mixed(encode_utf8(name), site.object as u64)
}

proof fn lemma_no_repeat(sites: Seq<MemberSite>, names: Seq<Option<Seq<char>>>, n: nat)
    requires
        forall|j: int| 0 <= j < n ==> !#[trigger] is_repeat(sites, names, j),
    ensures
        first_repeat(sites, names, n) is None,
    decreases n,
{
    if n > 0 {
        lemma_no_repeat(sites, names, (n - 1) as nat);
    }
}

proof fn lemma_first_repeat(sites: Seq<MemberSite>, names: Seq<Option<Seq<char>>>, n: nat, j: nat)
    requires
        j < n,
        is_repeat(sites, names, j as int),
        forall|k: int| 0 <= k < j ==> !#[trigger] is_repeat(sites, names, k),
    ensures
        first_repeat(sites, names, n) == Some(j),
    decreases n,
{
    if n == j + 1 {
        lemma_no_repeat(sites, names, j);
    } else {
        lemma_first_repeat(sites, names, (n - 1) as nat, j);
    }
}

/// Whether the places of the first `n` names are listed under their numbers.
#[verifier::opaque]
spec fn remembered(
    seen: Map<u64, Vec<usize>>,
    sites: Seq<MemberSite>,
    said: Seq<Option<Seq<char>>>,
    n: int,
) -> bool {
    forall|i: int|
        0 <= i < n && (#[trigger] said[i]) is Some ==> seen.contains_key(
            member_number(sites[i], said[i]->0),
        ) && seen[member_number(sites[i], said[i]->0)]@.contains(i as usize)
}

proof fn lemma_new_name(
    seen: Map<u64, Vec<usize>>,
    places: Seq<usize>,
    sites: Seq<MemberSite>,
    said: Seq<Option<Seq<char>>>,
    j: int,
)
    requires
        remembered(seen, sites, said, j),
        0 <= j < sites.len() <= usize::MAX,
        said[j] is Some,
        places == (if seen.contains_key(member_number(sites[j], said[j]->0)) {
            seen[member_number(sites[j], said[j]->0)]@
        } else {
            Seq::empty()
        }),
        forall|k: int|
            0 <= k < places.len() && places[k] < j ==> !#[trigger] same_member(
                sites,
                said,
                places[k] as int,
                j,
            ),
    ensures
        !is_repeat(sites, said, j),
{
    reveal(remembered);
    if is_repeat(sites, said, j) {
        let i = choose|i: int| 0 <= i < j && #[trigger] same_member(sites, said, i, j);
        assert(said[i] is Some);
        assert(member_number(sites[i], said[i]->0) == member_number(sites[j], said[j]->0));
        assert(places.contains(i as usize));
        let k = choose|k: int| 0 <= k < places.len() && places[k] == i as usize;
        assert(!same_member(sites, said, places[k] as int, j));
    }
}

proof fn lemma_remembered(
    before: Map<u64, Vec<usize>>,
    after: Map<u64, Vec<usize>>,
    sites: Seq<MemberSite>,
    said: Seq<Option<Seq<char>>>,
    j: int,
)
    requires
        remembered(before, sites, said, j),
        0 <= j < sites.len() <= usize::MAX,
        said[j] is Some,
        after.contains_key(member_number(sites[j], said[j]->0)),
        after[member_number(sites[j], said[j]->0)]@ == (if before.contains_key(
            member_number(sites[j], said[j]->0),
        ) {
            before[member_number(sites[j], said[j]->0)]@
        } else {
            Seq::empty()
        }).push(j as usize),
        forall|number: u64|
            number != member_number(sites[j], said[j]->0) && before.contains_key(number)
                ==> #[trigger] after.contains_key(number) && after[number] == before[number],
    ensures
        remembered(after, sites, said, j + 1),
{
    reveal(remembered);
    let number = member_number(sites[j], said[j]->0);
    let places = if before.contains_key(number) {
        before[number]@
    } else {
        Seq::empty()
    };
    assert forall|i: int| 0 <= i < j + 1 && (#[trigger] said[i]) is Some implies after.contains_key(
        member_number(sites[i], said[i]->0),
    ) && after[member_number(sites[i], said[i]->0)]@.contains(i as usize) by {
        if i == j {
            assert(places.push(j as usize).last() == j as usize);
        } else if member_number(sites[i], said[i]->0) == number {
            let k = choose|k: int| 0 <= k < places.len() && places[k] == i as usize;
            assert(places.push(j as usize)[k] == i as usize);
        } else {
            assert(after.contains_key(member_number(sites[i], said[i]->0)));
        }
    }
}

proof fn lemma_no_name(
    seen: Map<u64, Vec<usize>>,
    sites: Seq<MemberSite>,
    said: Seq<Option<Seq<char>>>,
    j: int,
)
    requires
        remembered(seen, sites, said, j),
        said[j] is None,
    ensures
        remembered(seen, sites, said, j + 1),
        !is_repeat(sites, said, j),
{
    reveal(remembered);
}

/// Whether a member at one of the given places is earlier than `j` and has its object and name.
fn names_earlier(
    sites: &Vec<MemberSite>,
    names: &Vec<Option<String>>,
    places: &Vec<usize>,
    j: usize,
) -> (r: bool)
    requires
        j < sites@.len() == names@.len(),
        names@[j as int] is Some,
    ensures
        r == exists|k: int|
            0 <= k < places@.len() && places@[k] < j && #[trigger] same_member(
                sites@,
                texts_view(names@),
                places@[k] as int,
                j as int,
            ),
{
    let ghost said = texts_view(names@);
    let mut k: usize = 0;
    while k < places.len()
        invariant
            k <= places.len(),
            j < sites@.len() == names@.len(),
            names@[j as int] is Some,
            said == texts_view(names@),
            forall|i: int|
                0 <= i < k && places@[i] < j ==> !#[trigger] same_member(
                    sites@,
                    said,
                    places@[i] as int,
                    j as int,
                ),
        decreases places.len() - k,
    {
        let place = places[k];
        if place < j && sites[place].object == sites[j].object {
            if let (Some(earlier), Some(name)) = (&names[place], &names[j]) {
                if same_text(earlier.as_str(), name.as_str()) {
                    assert(same_member(sites@, said, places@[k as int] as int, j as int));
                    return true;
                }
            }
        }
        k = k + 1;
    }
    false
}

/// Finds the first member that repeats the name of an earlier one of its object.
pub fn find_repeat(sites: &Vec<MemberSite>, names: &Vec<Option<String>>) -> (found: Option<usize>)
    requires
        sites@.len() == names@.len(),
    ensures
        match found {
            Some(j) => first_repeat(sites@, texts_view(names@), sites@.len()) == Some(j as nat),
            None => first_repeat(sites@, texts_view(names@), sites@.len()) is None,
        },
{
    broadcast use group_hash_axioms;

    let ghost said = texts_view(names@);
    let mut seen: HashMap<u64, Vec<usize>> = HashMap::new();
    proof {
        reveal(remembered);
    }
    let mut j: usize = 0;
    while j < sites.len()
        invariant
            j <= sites.len(),
            sites@.len() == names@.len(),
            said == texts_view(names@),
            forall|k: int| 0 <= k < j ==> !#[trigger] is_repeat(sites@, said, k),
            remembered(seen@, sites@, said, j as int),
        decreases sites.len() - j,
    {
        let ghost before = seen@;
        match &names[j] {
            Some(name) => {
                assert(said[j as int] == Some(name@));
                let number = mix(name.as_str(), sites[j].object as u64);
                assert(number == member_number(sites@[j as int], said[j as int]->0));
                let mut like = match seen.remove(&number) {
                    Some(like) => like,
                    None => Vec::new(),
                };
                let ghost places = like@;
                if names_earlier(sites, names, &like, j) {
                    proof {
                        let k = choose|k: int|
                            0 <= k < places.len() && places[k] < j && #[trigger] same_member(
                                sites@,
                                said,
                                places[k] as int,
                                j as int,
                            );
                        assert(same_member(sites@, said, places[k] as int, j as int));
                        assert(is_repeat(sites@, said, j as int));
                        lemma_first_repeat(sites@, said, sites@.len(), j as nat);
                    }
                    return Some(j);
                }
                like.push(j);
                seen.insert(number, like);
                proof {
                    lemma_new_name(before, places, sites@, said, j as int);
                    lemma_remembered(before, seen@, sites@, said, j as int);
                }
            },
            None => {
                assert(said[j as int] is None);
                proof {
                    lemma_no_name(before, sites@, said, j as int);
                }
            },
        }
        j = j + 1;
    }
    proof {
        lemma_no_repeat(sites@, said, sites@.len());
    }
    None
}

/// Finds where the first repeated name of a text ends, if the text has no fault before that.
pub fn find_repeated_name(text: &Vec<u8>) -> (found: Option<usize>)
    ensures
        found == repeated_name(text@),
        found matches Some(end) ==> end <= text.len(),
{
    let sites = member_sites(text);
    let names = read_names(text, &sites);
    assert(names@.len() == texts_view(names@).len() == sites@.len());
    match find_repeat(&sites, &names) {
        Some(j) => {
            proof {
                lemma_repeat_is_listed(sites@, texts_view(names@), sites@.len());
            }
            let end = sites[j].end;
            assert(sites_lie_in(sites@, text@.len() as int));
            assert(sites@[j as int].end <= text.len());
            match parse_bytes(&closed_prefix(text, end)) {
                Some(_) => Some(end),
                None => None,
            }
        },
        None => None,
    }
}

proof fn lemma_repeat_is_listed(sites: Seq<MemberSite>, names: Seq<Option<Seq<char>>>, n: nat)
    ensures
        first_repeat(sites, names, n) matches Some(j) ==> j < n && is_repeat(sites, names, j as int)
            && forall|k: int| 0 <= k < j ==> !#[trigger] is_repeat(sites, names, k),
        first_repeat(sites, names, n) is None ==> forall|k: int|
            0 <= k < n ==> !#[trigger] is_repeat(sites, names, k),
    decreases n,
{
    if n > 0 {
        lemma_repeat_is_listed(sites, names, (n - 1) as nat);
    }
}

/// Where the white space that follows `at` ends.
pub open spec fn after_blanks(text: Seq<u8>, at: int) -> int
    decreases text.len() - at,
{
    if 0 <= at < text.len() && (text[at] == 32 || text[at] == 9 || text[at] == 10 || text[at]
        == 13) {
        after_blanks(text, at + 1)
    } else {
        at
    }
}

/// The number of line feeds before `at`.
pub open spec fn lines_before(text: Seq<u8>, at: int) -> nat
    decreases at,
{
    if at <= 0 {
        0
    } else {
        lines_before(text, at - 1) + if text[at - 1] == 10 {
            1nat
        } else {
            0nat
        }
    }
}

/// Where the line that holds `at` begins.
pub open spec fn line_start(text: Seq<u8>, at: int) -> int
    decreases at,
{
    if at <= 0 || text[at - 1] == 10 {
        at
    } else {
        line_start(text, at - 1)
    }
}

/// Where a parser stands that has met a repeated name which ends at `end`: it has gone on over white
/// space, and over the brace that follows, if one does.
pub open spec fn repeat_place(text: Seq<u8>, end: int) -> int {
    let next = after_blanks(text, end);
    if next < text.len() && text[next] == 125 {
        next + 1
    } else {
        next
    }
}

/// How a name that is repeated and ends at `end` is refused.
pub open spec fn repeat_fault(text: Seq<u8>, end: int) -> Seq<char> {
    let place = repeat_place(text, end);
    "duplicate JSON object member at line "@ + decimal(1 + lines_before(text, place)) + " column "@
        + decimal((place - line_start(text, place)) as nat)
}

/// Says how a name that is repeated and ends at `end` is refused.
pub fn repeat_message(text: &Vec<u8>, end: usize) -> (message: String)
    requires
        end <= text.len(),
    ensures
        message@ == repeat_fault(text@, end as int),
{
    let mut place = end;
    while place < text.len() && (text[place] == 32 || text[place] == 9 || text[place] == 10
        || text[place] == 13)
        invariant
            end <= place <= text.len(),
            after_blanks(text@, end as int) == after_blanks(text@, place as int),
        decreases text.len() - place,
    {
        place = place + 1;
    }
    if place < text.len() && text[place] == 125 {
        place = place + 1;
    }
    let mut feeds: usize = 0;
    let mut start: usize = 0;
    let mut i: usize = 0;
    while i < place
        invariant
            start <= i <= place <= text.len(),
            feeds <= i,
            feeds == lines_before(text@, i as int),
            start == line_start(text@, i as int),
        decreases place - i,
    {
        if text[i] == 10 {
            feeds = feeds + 1;
            start = i + 1;
        }
        i = i + 1;
    }
    let place_text = joined3(
        decimal_text(feeds as u128 + 1).as_str(),
        " column ",
        decimal_text((place - start) as u128).as_str(),
    );
    let message = joined("duplicate JSON object member at line ", place_text.as_str());
    assert(message@ =~= repeat_fault(text@, end as int));
    message
}

/// A text is refused for a repeated name only where two members of one object have the same name.
pub proof fn law_a_refused_name_has_a_twin(text: Seq<u8>)
    requires
        repeated_name(text) is Some,
    ensures
        exists|i: int, j: int|
            0 <= i < j < scanned(text).sites.len() && #[trigger] same_member(
                scanned(text).sites,
                names_at(text, scanned(text).sites),
                i,
                j,
            ) && scanned(text).sites[j].end == repeated_name(text)->0,
{
    let sites = scanned(text).sites;
    let names = names_at(text, sites);
    lemma_repeat_is_listed(sites, names, sites.len());
    let j = first_repeat(sites, names, sites.len())->0 as int;
    let i = choose|i: int| 0 <= i < j && #[trigger] same_member(sites, names, i, j);
    assert(same_member(sites, names, i, j));
}

/// A text that the parser takes up to its first repeated name is refused for that name, whatever
/// follows; where no object repeats a name, nothing is.
pub proof fn law_a_repeated_name_is_refused(text: Seq<u8>)
    ensures
        (forall|i: int, j: int|
            0 <= i < j < scanned(text).sites.len() ==> !#[trigger] same_member(
                scanned(text).sites,
                names_at(text, scanned(text).sites),
                i,
                j,
            )) ==> repeated_name(text) is None,
        forall|j: int|
            0 <= j < scanned(text).sites.len() && #[trigger] is_repeat(
                scanned(text).sites,
                names_at(text, scanned(text).sites),
                j,
            ) && (forall|k: int|
                0 <= k < j ==> !#[trigger] is_repeat(
                    scanned(text).sites,
                    names_at(text, scanned(text).sites),
                    k,
                )) && bytes_json(closed_prefix_of(text, scanned(text).sites[j].end as int)) is Some
                ==> repeated_name(text) == Some(scanned(text).sites[j].end),
{
    let sites = scanned(text).sites;
    let names = names_at(text, sites);
    lemma_repeat_is_listed(sites, names, sites.len());
    assert forall|j: int|
        0 <= j < sites.len() && #[trigger] is_repeat(sites, names, j) && (forall|k: int|
            0 <= k < j ==> !#[trigger] is_repeat(sites, names, k)) && bytes_json(
            closed_prefix_of(text, sites[j].end as int),
        ) is Some implies repeated_name(text) == Some(sites[j].end) by {
        lemma_first_repeat(sites, names, sites.len(), j as nat);
    }
}

} // verus!
