use vstd::prelude::*;

verus! {

/// Field of a metadata block that links it to the block it replaced.
pub const PREVIOUS_FIELD: &'static str = "previous";
/// Field of a content link that holds the linked block's content id.
pub const LINK_FIELD: &'static str = "/";

/// The compact JSON text of the JSON document `text`, or `None` when `text`
/// is not a JSON document.
pub uninterp spec fn json_compact_text(text: Seq<char>) -> Option<Seq<char>>;

/// The string found in JSON document `text` under key `outer`, then under key
/// `inner` of the object found there; `None` when `text` is not a JSON
/// document or the path does not end at a string.
pub uninterp spec fn json_nested_str(text: Seq<char>, outer: Seq<char>, inner: Seq<char>) -> Option<Seq<char>>;

/// The view of an optional string.
pub open spec fn opt_text(s: Option<String>) -> Option<Seq<char>> {
    match s {
        Some(s) => Some(s@),
        None => None,
    }
}

/// Parses `text` with `serde_json::from_str` into a `serde_json::Value` and,
/// when it parses, renders the value with its `Display` impl (compact JSON).
/// Claimed: the result is the named function `json_compact_text` of the text.
#[verifier::external_body]
fn compact_json(text: &str) -> (r: Option<String>)
    ensures
        opt_text(r) == json_compact_text(text@),
{
    match serde_json::from_str::<serde_json::Value>(text) {
        Ok(value) => Some(value.to_string()),
        Err(_) => None,
    }
}

/// Parses `text` with `serde_json::from_str` into a `serde_json::Value`, then
/// follows `Value::get(outer)`, `Value::get(inner)` and `Value::as_str`.
/// Claimed: the result is the named function `json_nested_str` of the three
/// texts.
#[verifier::external_body]
fn nested_json_str(text: &str, outer: &str, inner: &str) -> (r: Option<String>)
    ensures
        opt_text(r) == json_nested_str(text@, outer@, inner@),
{
    serde_json::from_str::<serde_json::Value>(text).ok().and_then(
        |value| value.get(outer).and_then(|v| v.get(inner)).and_then(|v| v.as_str()).map(|s| s.to_string()),
    )
}

/// The block a walk goes on to, given a block's previous link: the link's
/// content id when there is a non-empty one, else none.
pub open spec fn link_target(previous: Option<Seq<char>>) -> Option<Seq<char>> {
    match previous {
        Some(cid) => if cid.len() == 0 { None } else { Some(cid) },
        None => None,
    }
}

/// The content id that a block links back to: its previous link, when that
/// is a non-empty string.
pub open spec fn previous_link(block: Seq<char>) -> Option<Seq<char>> {
    link_target(json_nested_str(block, PREVIOUS_FIELD@, LINK_FIELD@))
}

/// A walk back through the versions of a metadata record, newest first.
#[derive(Debug)]
pub struct HistoryWalk {
    /// The versions read so far, each as compact JSON.
    pub entries: Vec<String>,
    /// The content id of the block to read next; `None` when the walk is over.
    pub next: Option<String>,
}

/// A `HistoryWalk` taken as plain values.
pub struct HistoryView {
    pub entries: Seq<Seq<char>>,
    pub next: Option<Seq<char>>,
}

impl View for HistoryWalk {
    type V = HistoryView;

    open spec fn view(&self) -> HistoryView {
        HistoryView { entries: self.entries@.map_values(|s: String| s@), next: opt_text(self.next) }
    }
}

/// The walk that starts at the block `cid`; an empty content id starts a walk
/// that is already over.
pub open spec fn start_walk(cid: Seq<char>) -> HistoryView {
    HistoryView { entries: Seq::empty(), next: if cid.len() == 0 { None } else { Some(cid) } }
}

/// The walk after reading `block`, the block it was to read next.
pub open spec fn advance_spec(w: HistoryView, block: Seq<char>) -> HistoryView {
    HistoryView { entries: w.entries.push(json_compact_text(block).unwrap()), next: previous_link(block) }
}

/// The walk after reading `blocks`, in order.
pub open spec fn walk_through(w: HistoryView, blocks: Seq<Seq<char>>) -> HistoryView
    decreases blocks.len(),
{
    if blocks.len() == 0 {
        w
    } else {
        advance_spec(walk_through(w, blocks.drop_last()), blocks.last())
    }
}

/// True when each block is a JSON document and links back to the next one;
/// the last may link anywhere.
pub open spec fn is_chain(blocks: Seq<Seq<char>>) -> bool {
    &&& forall|i: int| 0 <= i < blocks.len() ==> (#[trigger] json_compact_text(blocks[i])) is Some
    &&& forall|i: int| 0 <= i < blocks.len() - 1 ==> previous_link(#[trigger] blocks[i]) == Some(blocks[i + 1])
}

impl HistoryWalk {
    /// Starts a walk at the block with content id `cid`.
    pub fn start(cid: String) -> (r: HistoryWalk)
        ensures
            r@ == start_walk(cid@),
    {
        let next = if cid.as_str().is_empty() { None } else { Some(cid) };
        let r = HistoryWalk { entries: Vec::new(), next };
        assert(r@.entries =~= Seq::<Seq<char>>::empty());
        r
    }

    /// Reads `block`, the block the walk was to read next, which is a JSON
    /// document: records it and moves on to the block it links back to.
    pub fn advance(&mut self, block: &str)
        requires
            json_compact_text(block@) is Some,
        ensures
            final(self)@ == advance_spec(old(self)@, block@),
    {
        let rendered = compact_json(block).unwrap();
        let previous = nested_json_str(block, PREVIOUS_FIELD, LINK_FIELD);
        self.record_block(rendered, previous);
    }

    /// Records a block read, given as its compact JSON `rendered` and its
    /// previous link `previous`, and moves on to the block the link names.
    pub fn record_block(&mut self, rendered: String, previous: Option<String>)
        ensures
            final(self)@ == (HistoryView {
                entries: old(self)@.entries.push(rendered@),
                next: link_target(opt_text(previous)),
            }),
    {
        let ghost before = self.entries@;
        let ghost text = rendered@;
        self.entries.push(rendered);
        assert(self.entries@.map_values(|s: String| s@) =~= before.map_values(|s: String| s@).push(text));
        self.next = match previous {
            Some(cid) => if cid.as_str().is_empty() { None } else { Some(cid) },
            None => None,
        };
    }

    /// Reads `block` like `advance` when it is a JSON document, and answers
    /// `true`; leaves the walk as it was and answers `false` when it is not.
    pub fn try_advance(&mut self, block: &str) -> (r: bool)
        ensures
            r == json_compact_text(block@) is Some,
            r ==> final(self)@ == advance_spec(old(self)@, block@),
            !r ==> final(self)@ == old(self)@,
    {
        if compact_json(block).is_some() {
            self.advance(block);
            true
        } else {
            false
        }
    }
}

/// A walk that starts at the current block and reads a chain of blocks (each
/// a JSON document that links back to the next) holds one entry per block, in
/// the order read, each the block's compact JSON; and it goes on exactly to
/// the block that the last one read links back to, if any.
pub proof fn walk_records_chain(cid: Seq<char>, blocks: Seq<Seq<char>>)
    requires
        is_chain(blocks),
    ensures
        walk_through(start_walk(cid), blocks).entries.len() == blocks.len(),
        forall|i: int| 0 <= i < blocks.len() ==>
            walk_through(start_walk(cid), blocks).entries[i] == json_compact_text(#[trigger] blocks[i]).unwrap(),
        blocks.len() > 0 ==> walk_through(start_walk(cid), blocks).next == previous_link(blocks.last()),
    decreases blocks.len(),
{
    if blocks.len() > 0 {
        let prefix = blocks.drop_last();
        assert forall|i: int| 0 <= i < prefix.len() implies (#[trigger] json_compact_text(prefix[i])) is Some by {
            assert(prefix[i] == blocks[i]);
        }
        assert forall|i: int| 0 <= i < prefix.len() - 1 implies previous_link(#[trigger] prefix[i]) == Some(prefix[i + 1]) by {
            assert(prefix[i] == blocks[i]);
            assert(prefix[i + 1] == blocks[i + 1]);
        }
        walk_records_chain(cid, prefix);
        assert forall|i: int| 0 <= i < blocks.len() implies
            walk_through(start_walk(cid), blocks).entries[i] == json_compact_text(#[trigger] blocks[i]).unwrap() by {
            if i < blocks.len() - 1 {
                assert(prefix[i] == blocks[i]);
            }
        }
    }
}


/// The walk follows every non-empty previous link, whatever its length, and
/// stops only at a missing or empty one.
pub proof fn walk_follows_every_nonempty_link(previous: Option<Seq<char>>)
    ensures
        (match previous {
            Some(c) => (c.len() > 0 ==> link_target(previous) == Some(c)) && (c.len() == 0 ==> link_target(
                previous,
            ) is None),
            None => link_target(previous) is None,
        }),
        (match link_target(previous) {
            Some(c) => previous == Some(c) && c.len() > 0,
            None => true,
        }),
{
}

/// Reading a block adds exactly its compact JSON as the newest-last entry,
/// keeps the earlier entries, and moves on to the block its previous link
/// names, whenever that link is a non-empty string.
pub proof fn reading_a_block(w: HistoryView, block: Seq<char>)
    ensures
        advance_spec(w, block).entries.len() == w.entries.len() + 1,
        advance_spec(w, block).entries.take(w.entries.len() as int) == w.entries,
        advance_spec(w, block).entries.last() == json_compact_text(block).unwrap(),
        (match json_nested_str(block, "previous"@, "/"@) {
            Some(c) => c.len() > 0 ==> advance_spec(w, block).next == Some(c),
            None => true,
        }),
        json_nested_str(block, "previous"@, "/"@) is None ==> advance_spec(w, block).next is None,
{
    assert(advance_spec(w, block).entries.take(w.entries.len() as int) =~= w.entries);
}

/// A walk starts at any non-empty content id, and a walk from an empty one
/// is over before it starts.
pub proof fn walk_starts_at_cid(cid: Seq<char>)
    ensures
        start_walk(cid).entries.len() == 0,
        cid.len() > 0 ==> start_walk(cid).next == Some(cid),
        cid.len() == 0 ==> start_walk(cid).next is None,
{
}

} // verus!
