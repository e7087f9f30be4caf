use joinery::Joinable;
use vstd::prelude::*;
use vstd::string::*;

verus! {

/// A place in the order: a value of the ordering column and an id.
#[derive(Clone, Copy, Debug, PartialEq, Eq, Structural)]
pub struct Position {
    pub key: i64,
    pub id: i64,
}

/// Which items of an ordered collection a page holds: at most `limit` of
/// them, strictly after the position `after` and strictly before the
/// position `before`. A position is a value of the ordering column together
/// with an id, which breaks ties.
#[derive(Clone, Copy, Debug, PartialEq, Eq, Structural)]
pub struct Paginator {
    pub limit: u8,
    pub after: Option<Position>,
    pub before: Option<Position>,
}

/// The order of positions: by column value, then by id.
pub open spec fn precedes(a: (int, int), b: (int, int)) -> bool {
    a.0 < b.0 || (a.0 == b.0 && a.1 < b.1)
}

/// The position of an item, given as its column value and its id.
pub open spec fn item_pos(x: (i64, i32)) -> (int, int) {
    (x.0 as int, x.1 as int)
}

/// The position that an anchor names.
pub open spec fn anchor_pos(a: Position) -> (int, int) {
    (a.key as int, a.id as int)
}

/// Items listed in strictly increasing position, as the store orders them.
pub open spec fn ordered(items: Seq<(i64, i32)>) -> bool {
    forall|i: int, j: int| 0 <= i < j < items.len() ==> precedes(item_pos(items[i]), item_pos(items[j]))
}

/// Whether an item lies between the paginator's bounds.
pub open spec fn in_window(p: Paginator, x: (i64, i32)) -> bool {
    &&& (p.after matches Option::Some(a) ==> precedes(anchor_pos(a), item_pos(x)))
    &&& (p.before matches Option::Some(b) ==> precedes(item_pos(x), anchor_pos(b)))
}

pub open spec fn window_pred(p: Paginator) -> spec_fn((i64, i32)) -> bool {
    |x: (i64, i32)| in_window(p, x)
}

/// The items between the bounds, in the collection's order.
pub open spec fn window(items: Seq<(i64, i32)>, p: Paginator) -> Seq<(i64, i32)> {
    items.filter(window_pred(p))
}

/// The page: the first `limit` items of the window, or the last `limit` of
/// them when only an upper bound is given.
pub open spec fn page(items: Seq<(i64, i32)>, p: Paginator) -> Seq<(i64, i32)> {
    let w = window(items, p);
    let n = p.limit as int;
    if p.after is None && p.before is Some {
        if w.len() > n {
            w.subrange(w.len() - n, w.len() as int)
        } else {
            w
        }
    } else {
        if w.len() > n {
            w.subrange(0, n)
        } else {
            w
        }
    }
}

/// The page that starts the collection: after a position just ahead of the
/// first item.
pub open spec fn first_anchor(items: Seq<(i64, i32)>, p: Paginator) -> Option<Paginator> {
    if items.len() == 0 {
        Option::None
    } else {
        Option::Some(
            Paginator {
                limit: p.limit,
                after: Option::Some(Position { key: items[0].0, id: (items[0].1 - 1) as i64 }),
                before: Option::None,
            },
        )
    }
}

/// The page that ends the collection: before a position just behind the
/// last item.
pub open spec fn last_anchor(items: Seq<(i64, i32)>, p: Paginator) -> Option<Paginator> {
    if items.len() == 0 {
        Option::None
    } else {
        Option::Some(
            Paginator {
                limit: p.limit,
                after: Option::None,
                before: Option::Some(Position { key: items.last().0, id: (items.last().1 + 1) as i64 }),
            },
        )
    }
}

/// The page after this one, unless this one holds the collection's last item.
pub open spec fn next_anchor(items: Seq<(i64, i32)>, p: Paginator) -> Option<Paginator> {
    let pg = page(items, p);
    if pg.len() == 0 || items.len() == 0 || !precedes(item_pos(pg.last()), item_pos(items.last())) {
        Option::None
    } else {
        Option::Some(
            Paginator {
                limit: p.limit,
                after: Option::Some(Position { key: pg.last().0, id: pg.last().1 as i64 }),
                before: Option::None,
            },
        )
    }
}

/// The page before this one, unless this one holds the collection's first item.
pub open spec fn prev_anchor(items: Seq<(i64, i32)>, p: Paginator) -> Option<Paginator> {
    let pg = page(items, p);
    if pg.len() == 0 || items.len() == 0 || !precedes(item_pos(items[0]), item_pos(pg[0])) {
        Option::None
    } else {
        Option::Some(
            Paginator { limit: p.limit, after: Option::None, before: Option::Some(Position { key: pg[0].0, id: pg[0].1 as i64 }) },
        )
    }
}

/// The decimal digits of a natural number.
pub open spec fn digits(n: nat) -> Seq<char>
    decreases n,
{
    let d = seq!['0', '1', '2', '3', '4', '5', '6', '7', '8', '9'];
    if n < 10 {
        seq![d[n as int]]
    } else {
        digits(n / 10).push(d[(n % 10) as int])
    }
}

/// An integer written in decimal, with a leading `-` when negative.
pub open spec fn decimal(v: int) -> Seq<char> {
    if v < 0 {
        seq!['-'] + digits((-v) as nat)
    } else {
        digits(v as nat)
    }
}

/// The parts written one after another with `sep` between each two.
pub open spec fn joined(parts: Seq<Seq<char>>, sep: Seq<char>) -> Seq<char>
    decreases parts.len(),
{
    if parts.len() == 0 {
        Seq::empty()
    } else if parts.len() == 1 {
        parts[0]
    } else {
        joined(parts.drop_last(), sep) + sep + parts.last()
    }
}

/// A key that form encoding leaves as it is.
pub open spec fn plain_key(k: Seq<char>) -> bool {
    forall|i: int| 0 <= i < k.len() ==> ('a' <= #[trigger] k[i] <= 'z' || k[i] == '_')
}

/// The form-encoded query of integer pairs with plain keys.
pub open spec fn query_of(pairs: Seq<(Seq<char>, int)>) -> Seq<char> {
    joined(pairs.map_values(|kv: (Seq<char>, int)| kv.0 + seq!['='] + decimal(kv.1)), seq!['&'])
}

pub open spec fn pair_views(pairs: Seq<(String, i64)>) -> Seq<(Seq<char>, int)> {
    pairs.map_values(|kv: (String, i64)| (kv.0@, kv.1 as int))
}

/// Relies on `serde_urlencoded::to_string`: a sequence of pairs becomes
/// `key=value` parts joined by `&`, keys and values form-encoded (which keeps
/// lower-case letters, `_`, digits and `-`), integers written by `itoa` in decimal.
#[verifier::external_body]
fn encode_query(pairs: &Vec<(String, i64)>) -> (r: String)
    requires
        forall|i: int| 0 <= i < pairs@.len() ==> plain_key(#[trigger] pairs@[i].0@),
    ensures
        r@ == query_of(pair_views(pairs@)),
{
    match serde_urlencoded::to_string(pairs) {
        Ok(s) => s,
        Err(_) => String::new(),
    }
}

pub open spec fn string_views(parts: Seq<String>) -> Seq<Seq<char>> {
    parts.map_values(|s: String| s@)
}

/// Relies on `joinery::Joinable::join_with` and its `Display`: the parts are
/// written in order with the separator between each two.
#[verifier::external_body]
fn join_parts(parts: Vec<String>, sep: &str) -> (r: String)
    ensures
        r@ == joined(string_views(parts@), sep@),
{
    parts.join_with(sep).to_string()
}

/// The pairs that a paginator is written as in a query.
pub open spec fn query_pairs(p: Paginator) -> Seq<(Seq<char>, int)> {
    let limit = seq![("limit"@, p.limit as int)];
    let after = match p.after {
        Option::Some(a) => seq![("after"@, a.key as int), ("after_id"@, a.id as int)],
        Option::None => Seq::empty(),
    };
    let before = match p.before {
        Option::Some(b) => seq![("before"@, b.key as int), ("before_id"@, b.id as int)],
        Option::None => Seq::empty(),
    };
    limit + after + before
}

/// One navigation entry: `<base?query>; rel=relation`.
pub open spec fn entry(base: Seq<char>, p: Paginator, rel: Seq<char>) -> Seq<char> {
    "<"@ + base + "?"@ + query_of(query_pairs(p)) + ">; rel="@
        + rel
}

pub open spec fn entry_if(base: Seq<char>, anchor: Option<Paginator>, rel: Seq<char>) -> Seq<Seq<char>> {
    match anchor {
        Option::Some(p) => seq![entry(base, p, rel)],
        Option::None => Seq::empty(),
    }
}

/// The entries present, in the order first, next, prev, last.
pub open spec fn header_entries(base: Seq<char>, ids: Seq<(i64, i32)>, p: Paginator) -> Seq<Seq<char>> {
    entry_if(base, first_anchor(ids, p), "first"@) + entry_if(
        base,
        next_anchor(ids, p),
        "next"@,
    ) + entry_if(base, prev_anchor(ids, p), "prev"@) + entry_if(
        base,
        last_anchor(ids, p),
        "last"@,
    )
}

/// The navigation header: the entries present, joined by commas.
pub open spec fn header(base: Seq<char>, ids: Seq<(i64, i32)>, p: Paginator) -> Seq<char> {
    joined(header_entries(base, ids, p), ","@)
}

/// Compares two positions.
pub fn position_precedes(a: Position, b: Position) -> (r: bool)
    ensures
        r == precedes(anchor_pos(a), anchor_pos(b)),
{
    a.key < b.key || (a.key == b.key && a.id < b.id)
}

/// Whether items are listed in strictly increasing position.
pub fn is_ordered(items: &Vec<(i64, i32)>) -> (r: bool)
    ensures
        r == ordered(items@),
{
    let mut i: usize = 1;
    if items.len() == 0 {
        return true;
    }
    while i < items.len()
        invariant
            1 <= i <= items@.len(),
            forall|a: int, b: int| 0 <= a < b < i ==> precedes(item_pos(items@[a]), item_pos(items@[b])),
        decreases items@.len() - i,
    {
        let x = items[i - 1];
        let y = items[i];
        if !position_precedes(Position { key: x.0, id: x.1 as i64 }, Position { key: y.0, id: y.1 as i64 }) {
            assert(!precedes(item_pos(items@[i - 1]), item_pos(items@[i as int])));
            return false;
        }
        assert forall|a: int, b: int| 0 <= a < b < i + 1 implies precedes(
            item_pos(items@[a]),
            item_pos(items@[b]),
        ) by {
            if b == i as int && a < i - 1 {
                assert(precedes(item_pos(items@[a]), item_pos(items@[i - 1])));
            }
        }
        i = i + 1;
    }
    true
}

impl Paginator {
    /// Whether an item lies between the bounds.
    pub fn contains(&self, x: (i64, i32)) -> (r: bool)
        ensures
            r == in_window(*self, x),
    {
        let pos = Position { key: x.0, id: x.1 as i64 };
        let above = match self.after {
            Some(a) => position_precedes(a, pos),
            None => true,
        };
        let below = match self.before {
            Some(b) => position_precedes(pos, b),
            None => true,
        };
        above && below
    }

    /// Selects this page out of the items of an ordered collection.
    pub fn load(&self, items: &Vec<(i64, i32)>) -> (r: Vec<(i64, i32)>)
        requires
            ordered(items@),
        ensures
            r@ == page(items@, *self),
    {
        let ids = items;
        let mut w: Vec<(i64, i32)> = Vec::new();
        let mut i: usize = 0;
        while i < ids.len()
            invariant
                i <= ids@.len(),
                w@ == ids@.subrange(0, i as int).filter(window_pred(*self)),
            decreases ids@.len() - i,
        {
            let x = ids[i];
            proof {
                let s = ids@.subrange(0, i as int + 1);
                assert(s.drop_last() =~= ids@.subrange(0, i as int));
                assert(s.last() == x);
                reveal(Seq::filter);
            }
            if self.contains(x) {
                w.push(x);
            }
            i = i + 1;
        }
        assert(ids@.subrange(0, ids@.len() as int) =~= ids@);
        let n = self.limit as usize;
        let len = w.len();
        let from_end = self.after.is_none() && self.before.is_some();
        let (lo, hi) = if len <= n {
            (0, len)
        } else if from_end {
            (len - n, len)
        } else {
            (0, n)
        };
        let mut r: Vec<(i64, i32)> = Vec::new();
        let mut j: usize = lo;
        while j < hi
            invariant
                lo <= j <= hi <= w@.len(),
                r@ == w@.subrange(lo as int, j as int),
            decreases hi - j,
        {
            r.push(w[j]);
            assert(w@.subrange(lo as int, j + 1) =~= w@.subrange(lo as int, j as int).push(w@[j as int]));
            j = j + 1;
        }
        assert(w@.subrange(0, len as int) =~= w@);
        r
    }

    /// The page that starts the collection.
    pub fn first(&self, items: &Vec<(i64, i32)>) -> (r: Option<Paginator>)
        ensures
            r == first_anchor(items@, *self),
    {
        if items.len() == 0 {
            None
        } else {
            Some(Paginator { limit: self.limit, after: Some(Position { key: items[0].0, id: items[0].1 as i64 - 1 }), before: None })
        }
    }

    /// The page that ends the collection.
    pub fn last(&self, items: &Vec<(i64, i32)>) -> (r: Option<Paginator>)
        ensures
            r == last_anchor(items@, *self),
    {
        if items.len() == 0 {
            None
        } else {
            let l = items[items.len() - 1];
            Some(Paginator { limit: self.limit, after: None, before: Some(Position { key: l.0, id: l.1 as i64 + 1 }) })
        }
    }

    /// The page after this one, if this one does not end the collection.
    pub fn next(&self, items: &Vec<(i64, i32)>) -> (r: Option<Paginator>)
        requires
            ordered(items@),
        ensures
            r == next_anchor(items@, *self),
    {
        let pg = self.load(items);
        if pg.len() == 0 || items.len() == 0 {
            return None;
        }
        let a = pg[pg.len() - 1];
        let l = items[items.len() - 1];
        if !position_precedes(Position { key: a.0, id: a.1 as i64 }, Position { key: l.0, id: l.1 as i64 }) {
            None
        } else {
            Some(Paginator { limit: self.limit, after: Some(Position { key: a.0, id: a.1 as i64 }), before: None })
        }
    }

    /// The page before this one, if this one does not start the collection.
    pub fn prev(&self, items: &Vec<(i64, i32)>) -> (r: Option<Paginator>)
        requires
            ordered(items@),
        ensures
            r == prev_anchor(items@, *self),
    {
        let pg = self.load(items);
        if pg.len() == 0 || items.len() == 0 {
            return None;
        }
        let f = items[0];
        let a = pg[0];
        if !position_precedes(Position { key: f.0, id: f.1 as i64 }, Position { key: a.0, id: a.1 as i64 }) {
            None
        } else {
            Some(Paginator { limit: self.limit, after: None, before: Some(Position { key: a.0, id: a.1 as i64 }) })
        }
    }

    /// The paginator written as a form-encoded query.
    pub fn query(&self) -> (r: String)
        ensures
            r@ == query_of(query_pairs(*self)),
    {
        let mut pairs: Vec<(String, i64)> = Vec::new();
        proof {
            reveal_strlit("limit");
            reveal_strlit("after");
            reveal_strlit("after_id");
            reveal_strlit("before");
            reveal_strlit("before_id");
        }
        pairs.push((String::from_str("limit"), self.limit as i64));
        match self.after {
            Some(a) => {
                pairs.push((String::from_str("after"), a.key));
                pairs.push((String::from_str("after_id"), a.id));
            },
            None => {},
        }
        match self.before {
            Some(b) => {
                pairs.push((String::from_str("before"), b.key));
                pairs.push((String::from_str("before_id"), b.id));
            },
            None => {},
        }
        assert(pair_views(pairs@) =~= query_pairs(*self));
        encode_query(&pairs)
    }

    /// One navigation entry for the page this paginator selects.
    pub fn nav_entry(&self, base: &str, rel: &str) -> (r: String)
        ensures
            r@ == entry(base@, *self, rel@),
    {
        let mut s = String::from_str("<");
        s.append(base);
        s.append("?");
        let q = self.query();
        s.append(q.as_str());
        s.append(">; rel=");
        s.append(rel);
        s
    }

    /// Loads this page and renders the navigation header for it: an entry
    /// for each of the first, next, previous and last pages that exists, in
    /// that order, joined by commas.
    pub fn paginate(&self, base: &str, ids: &Vec<(i64, i32)>) -> (r: (Vec<(i64, i32)>, String))
        requires
            ordered(ids@),
        ensures
            r.0@ == page(ids@, *self),
            r.1@ == header(base@, ids@, *self),
    {
        let result = self.load(ids);
        let mut entries: Vec<String> = Vec::new();
        let ghost b = base@;
        let ghost v = ids@;
        let ghost p = *self;
        match self.first(ids) {
            Some(a) => entries.push(a.nav_entry(base, "first")),
            None => {},
        }
        assert(string_views(entries@) =~= entry_if(b, first_anchor(v, p), "first"@));
        match self.next(ids) {
            Some(a) => entries.push(a.nav_entry(base, "next")),
            None => {},
        }
        assert(string_views(entries@) =~= entry_if(b, first_anchor(v, p), "first"@) + entry_if(
            b,
            next_anchor(v, p),
            "next"@,
        ));
        match self.prev(ids) {
            Some(a) => entries.push(a.nav_entry(base, "prev")),
            None => {},
        }
        assert(string_views(entries@) =~= entry_if(b, first_anchor(v, p), "first"@) + entry_if(
            b,
            next_anchor(v, p),
            "next"@,
        ) + entry_if(b, prev_anchor(v, p), "prev"@));
        match self.last(ids) {
            Some(a) => entries.push(a.nav_entry(base, "last")),
            None => {},
        }
        assert(string_views(entries@) =~= header_entries(b, v, p));
        let h = join_parts(entries, ",");
        (result, h)
    }
}

/// Paginating unchanged data twice gives the same page and the same header,
/// character for character.
pub proof fn lemma_paginate_repeatable(
    ids: Seq<(i64, i32)>,
    p: Paginator,
    base: Seq<char>,
    first: (Seq<(i64, i32)>, Seq<char>),
    second: (Seq<(i64, i32)>, Seq<char>),
)
    requires
        first == (page(ids, p), header(base, ids, p)),
        second == (page(ids, p), header(base, ids, p)),
    ensures
        first == second,
{
}

} // verus!
