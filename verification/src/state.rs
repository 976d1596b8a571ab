//! The persisted configuration and the two parsers that read it: the
//! algorithm tag and the oracle's block-list.

use vstd::prelude::*;
use vstd::string::*;
use crate::host::{char_is_whitespace, is_white_space, lowercase, to_lowercase};
use crate::msg::{text_of, ContractError};

verus! {

/// The canonical tag that a lowercased algorithm name stands for, if any.
pub open spec fn key_type_of(lowered: Seq<char>) -> Option<Seq<char>> {
    if lowered == "secp256k1"@ || lowered == "k256"@ || lowered == "ecdsa"@ {
        Some("secp256k1"@)
    } else if lowered == "ed25519"@ || lowered == "ed"@ {
        Some("ed25519"@)
    } else {
        None
    }
}

/// Whether a tag is one of the two canonical algorithm names.
pub open spec fn is_canonical_key_type(tag: Seq<char>) -> bool {
    tag == "secp256k1"@ || tag == "ed25519"@
}

pub(crate) fn same_text(a: &str, b: &str) -> (r: bool)
    ensures
        r == (a@ == b@),
{
    let x: String = a.to_owned();
    let y: String = b.to_owned();
    x == y
}

/// Maps an already lowercased algorithm name to its canonical tag.
pub fn canonical_key_type(lowered: &str) -> (r: Option<&'static str>)
    ensures
        match r {
            Some(tag) => key_type_of(lowered@) == Some(tag@),
            None => key_type_of(lowered@) is None,
        },
        r matches Some(tag) ==> is_canonical_key_type(tag@),
{
    if same_text(lowered, "secp256k1") || same_text(lowered, "k256") || same_text(lowered, "ecdsa") {
        Some("secp256k1")
    } else if same_text(lowered, "ed25519") || same_text(lowered, "ed") {
        Some("ed25519")
    } else {
        None
    }
}

/// Normalizes an algorithm name, ignoring case: the aliases of each family
/// give the family's canonical tag, anything else gives `None`.
pub fn parse_key_type(s: &str) -> (r: Option<&'static str>)
    ensures
        match r {
            Some(tag) => key_type_of(lowercase(s@)) == Some(tag@),
            None => key_type_of(lowercase(s@)) is None,
        },
        r matches Some(tag) ==> is_canonical_key_type(tag@),
{
    let lowered = to_lowercase(s);
    canonical_key_type(lowered.as_str())
}

/// Whether position `i` is marked as whitespace. A position without a mark
/// counts as not blank.
pub open spec fn is_blank_at(blank: Seq<bool>, i: int) -> bool {
    0 <= i < blank.len() && blank[i]
}

/// The first position at or after `from`, and before `end`, that is not
/// blank; `end` if there is none.
pub open spec fn skip_space(blank: Seq<bool>, from: int, end: int) -> int
    decreases end - from,
{
    if from < end && is_blank_at(blank, from) {
        skip_space(blank, from + 1, end)
    } else {
        from
    }
}

/// The end of the text that starts at `lo` once the blank positions before
/// `end` are taken off.
pub open spec fn drop_space(blank: Seq<bool>, lo: int, end: int) -> int
    decreases end - lo,
{
    if lo < end && is_blank_at(blank, end - 1) {
        drop_space(blank, lo, end - 1)
    } else {
        end
    }
}

/// The position of the first comma at or after `from`; the length of `s` if
/// there is none.
pub open spec fn next_comma(s: Seq<char>, from: int) -> int
    decreases s.len() - from,
{
    if 0 <= from < s.len() && s[from] != ',' {
        next_comma(s, from + 1)
    } else {
        from
    }
}

/// Where the block-list entries of `s` lie, from position `from` on: for
/// each comma-separated segment the bounds of what is left of it without
/// the blank positions at its two ends, unless nothing is left; in order.
pub open spec fn entry_bounds_from(s: Seq<char>, blank: Seq<bool>, from: int) -> Seq<(int, int)>
    decreases s.len() - from,
{
    if 0 <= from <= s.len() {
        let end = next_comma(s, from);
        let lo = skip_space(blank, from, end);
        let hi = drop_space(blank, lo, end);
        let rest = if from <= end < s.len() {
            entry_bounds_from(s, blank, end + 1)
        } else {
            Seq::empty()
        };
        if lo < hi {
            seq![(lo, hi)] + rest
        } else {
            rest
        }
    } else {
        Seq::empty()
    }
}

/// For each character of a text, whether it is whitespace.
pub open spec fn blanks(s: Seq<char>) -> Seq<bool> {
    Seq::new(s.len(), |i: int| is_white_space(s[i]))
}

/// The pieces of `s` that lie within the given bounds.
pub open spec fn pieces(s: Seq<char>, bounds: Seq<(int, int)>) -> Seq<Seq<char>> {
    bounds.map_values(|b: (int, int)| s.subrange(b.0, b.1))
}

/// The block-list that a piece of oracle data stands for: its
/// comma-separated segments, each without the whitespace at its two ends,
/// the empty ones left out, in the order of the data and with repetitions.
pub open spec fn blocked_entries(data: Seq<char>) -> Seq<Seq<char>> {
    pieces(data, entry_bounds_from(data, blanks(data), 0))
}

/// The texts of a list of strings.
pub open spec fn texts(v: Seq<String>) -> Seq<Seq<char>> {
    v.map_values(|t: String| t@)
}

/// Bounds as mathematical integers.
pub open spec fn bounds_view(v: Seq<(usize, usize)>) -> Seq<(int, int)> {
    v.map_values(|b: (usize, usize)| (b.0 as int, b.1 as int))
}

/// What every entry of a block-list is: not empty, without whitespace at
/// either end, and without a comma.
pub open spec fn is_clean_entry(entry: Seq<char>) -> bool {
    &&& entry.len() > 0
    &&& !is_white_space(entry[0])
    &&& !is_white_space(entry[entry.len() - 1])
    &&& !entry.contains(',')
}

proof fn lemma_skip_space_stops(blank: Seq<bool>, from: int, end: int)
    requires
        from <= end,
    ensures
        from <= skip_space(blank, from, end) <= end,
        skip_space(blank, from, end) < end ==> !is_blank_at(blank, skip_space(blank, from, end)),
    decreases end - from,
{
    if from < end && is_blank_at(blank, from) {
        lemma_skip_space_stops(blank, from + 1, end);
    }
}

proof fn lemma_drop_space_stops(blank: Seq<bool>, lo: int, end: int)
    requires
        lo <= end,
    ensures
        lo <= drop_space(blank, lo, end) <= end,
        lo < drop_space(blank, lo, end) ==> !is_blank_at(blank, drop_space(blank, lo, end) - 1),
    decreases end - lo,
{
    if lo < end && is_blank_at(blank, end - 1) {
        lemma_drop_space_stops(blank, lo, end - 1);
    }
}

proof fn lemma_next_comma_skips_none(s: Seq<char>, from: int)
    requires
        0 <= from <= s.len(),
    ensures
        from <= next_comma(s, from) <= s.len(),
        forall|k: int| from <= k < next_comma(s, from) ==> s[k] != ',',
    decreases s.len() - from,
{
    if from < s.len() && s[from] != ',' {
        lemma_next_comma_skips_none(s, from + 1);
    }
}

/// What holds of the bounds of an entry within a text: they enclose at
/// least one character, none of them a comma, and neither end is blank.
pub open spec fn is_clean_bound(s: Seq<char>, blank: Seq<bool>, b: (int, int)) -> bool {
    &&& 0 <= b.0 < b.1 <= s.len()
    &&& !is_blank_at(blank, b.0)
    &&& !is_blank_at(blank, b.1 - 1)
    &&& forall|k: int| b.0 <= k < b.1 ==> s[k] != ','
}

/// Every bound that `entry_bounds_from` gives is clean.
pub proof fn lemma_entry_bounds_are_clean(s: Seq<char>, blank: Seq<bool>, from: int)
    requires
        0 <= from <= s.len(),
    ensures
        forall|i: int|
            0 <= i < entry_bounds_from(s, blank, from).len() ==> is_clean_bound(
                s,
                blank,
                #[trigger] entry_bounds_from(s, blank, from)[i],
            ),
    decreases s.len() - from,
{
    let end = next_comma(s, from);
    lemma_next_comma_skips_none(s, from);
    lemma_skip_space_stops(blank, from, end);
    let lo = skip_space(blank, from, end);
    lemma_drop_space_stops(blank, lo, end);
    let hi = drop_space(blank, lo, end);
    if lo < hi {
        assert(is_clean_bound(s, blank, (lo, hi)));
    }
    let rest = if end < s.len() {
        entry_bounds_from(s, blank, end + 1)
    } else {
        Seq::empty()
    };
    if end < s.len() {
        lemma_entry_bounds_are_clean(s, blank, end + 1);
    }
    assert forall|i: int| 0 <= i < entry_bounds_from(s, blank, from).len() implies is_clean_bound(
        s,
        blank,
        #[trigger] entry_bounds_from(s, blank, from)[i],
    ) by {
        if lo < hi {
            if i > 0 {
                assert(entry_bounds_from(s, blank, from)[i] == rest[i - 1]);
            }
        } else {
            assert(entry_bounds_from(s, blank, from)[i] == rest[i]);
        }
    }
}

/// Every entry of a parsed block-list is a trimmed, non-empty text without
/// a comma, whatever the oracle data holds.
pub proof fn blocked_entries_are_clean(data: Seq<char>)
    ensures
        forall|i: int|
            0 <= i < blocked_entries(data).len() ==> is_clean_entry(#[trigger] blocked_entries(data)[i]),
{
    let bounds = entry_bounds_from(data, blanks(data), 0);
    lemma_entry_bounds_are_clean(data, blanks(data), 0);
    assert forall|i: int| 0 <= i < blocked_entries(data).len() implies is_clean_entry(
        #[trigger] blocked_entries(data)[i],
    ) by {
        let b = bounds[i];
        assert(is_clean_bound(data, blanks(data), b));
        let entry = data.subrange(b.0, b.1);
        assert(blocked_entries(data)[i] == entry);
        assert(entry[0] == data[b.0]);
        assert(entry[entry.len() - 1] == data[b.1 - 1]);
        assert(!entry.contains(',')) by {
            if entry.contains(',') {
                let k = choose|k: int| 0 <= k < entry.len() && entry[k] == ',';
                assert(data[b.0 + k] == ',');
            }
        }
    }
}

/// Finds the block-list entries in a text given as its characters, with a
/// mark on each character that counts as whitespace: the bounds of every
/// comma-separated segment without the marked characters at its two ends,
/// where anything is left of it, in order.
pub fn entry_bounds(chars: &Vec<char>, blank: &Vec<bool>) -> (r: Vec<(usize, usize)>)
    ensures
        bounds_view(r@) == entry_bounds_from(chars@, blank@, 0),
        forall|i: int| 0 <= i < r@.len() ==> (#[trigger] r@[i]).0 < r@[i].1 <= chars@.len(),
{
    let n: usize = chars.len();
    let mut out: Vec<(usize, usize)> = Vec::new();
    let mut from: usize = 0;
    let mut done: bool = false;
    while !done
        invariant
            n == chars@.len(),
            from <= n,
            !done ==> bounds_view(out@) + entry_bounds_from(chars@, blank@, from as int)
                == entry_bounds_from(chars@, blank@, 0),
            done ==> bounds_view(out@) == entry_bounds_from(chars@, blank@, 0),
            forall|i: int| 0 <= i < out@.len() ==> (#[trigger] out@[i]).0 < out@[i].1 <= n,
        decreases n - from + (if done { 0int } else { 1int }),
    {
        let mut end: usize = from;
        while end < n && chars[end] != ','
            invariant
                n == chars@.len(),
                from <= end <= n,
                next_comma(chars@, end as int) == next_comma(chars@, from as int),
            decreases n - end,
        {
            end = end + 1;
        }
        let mut lo: usize = from;
        while lo < end && lo < blank.len() && blank[lo]
            invariant
                from <= lo <= end,
                skip_space(blank@, lo as int, end as int) == skip_space(
                    blank@,
                    from as int,
                    end as int,
                ),
            decreases end - lo,
        {
            lo = lo + 1;
        }
        let mut hi: usize = end;
        while lo < hi && hi - 1 < blank.len() && blank[hi - 1]
            invariant
                lo <= hi <= end,
                drop_space(blank@, lo as int, hi as int) == drop_space(blank@, lo as int, end as int),
            decreases hi - lo,
        {
            hi = hi - 1;
        }
        let ghost before = bounds_view(out@);
        if lo < hi {
            out.push((lo, hi));
            assert(bounds_view(out@) =~= before + seq![(lo as int, hi as int)]);
        }
        if end < n {
            assert(bounds_view(out@) + entry_bounds_from(chars@, blank@, end + 1) =~= before
                + entry_bounds_from(chars@, blank@, from as int));
            from = end + 1;
        } else {
            assert(bounds_view(out@) =~= before + entry_bounds_from(chars@, blank@, from as int));
            done = true;
        }
    }
    out
}

/// Parses the oracle's block-list: `data` is split at each comma, every
/// segment is trimmed of whitespace, and the segments that are then empty are
/// dropped. The order of the segments is kept and nothing is deduplicated.
pub fn parse_blocked_addresses(data: &str) -> (r: Vec<String>)
    ensures
        texts(r@) == blocked_entries(data@),
{
    let n: usize = data.unicode_len();
    let mut chars: Vec<char> = Vec::new();
    let mut blank: Vec<bool> = Vec::new();
    let mut i: usize = 0;
    while i < n
        invariant
            n == data@.len(),
            i <= n,
            chars@ == data@.subrange(0, i as int),
            blank@ == blanks(data@).subrange(0, i as int),
        decreases n - i,
    {
        let c: char = data.get_char(i);
        chars.push(c);
        blank.push(char_is_whitespace(c));
        i = i + 1;
        assert(chars@ =~= data@.subrange(0, i as int));
        assert(blank@ =~= blanks(data@).subrange(0, i as int));
    }
    assert(chars@ =~= data@);
    assert(blank@ =~= blanks(data@));
    let bounds = entry_bounds(&chars, &blank);
    let mut out: Vec<String> = Vec::new();
    let mut k: usize = 0;
    while k < bounds.len()
        invariant
            n == data@.len(),
            k <= bounds@.len(),
            forall|j: int| 0 <= j < bounds@.len() ==> (#[trigger] bounds@[j]).0 < bounds@[j].1 <= n,
            texts(out@) == pieces(data@, bounds_view(bounds@)).subrange(0, k as int),
        decreases bounds@.len() - k,
    {
        let b: (usize, usize) = bounds[k];
        let ghost before = texts(out@);
        let ghost all = pieces(data@, bounds_view(bounds@));
        let entry: String = data.substring_char(b.0, b.1).to_owned();
        out.push(entry);
        proof {
            assert(bounds_view(bounds@)[k as int] == (b.0 as int, b.1 as int));
            assert(all[k as int] == data@.subrange(b.0 as int, b.1 as int));
            assert(texts(out@) =~= before.push(all[k as int]));
            assert(all.subrange(0, k + 1) =~= all.subrange(0, k as int).push(all[k as int]));
        }
        k = k + 1;
    }
    assert(texts(out@) =~= pieces(data@, bounds_view(bounds@)));
    out
}

/// Whether `who` is, letter for letter, one of the texts in `list`.
pub fn contains_text(list: &Vec<String>, who: &str) -> (r: bool)
    ensures
        r == texts(list@).contains(who@),
{
    let mut i: usize = 0;
    while i < list.len()
        invariant
            i <= list.len(),
            forall|j: int| 0 <= j < i ==> texts(list@)[j] != who@,
        decreases list.len() - i,
    {
        if same_text(list[i].as_str(), who) {
            assert(texts(list@)[i as int] == who@);
            return true;
        }
        i = i + 1;
    }
    false
}

/// What the module keeps between requests. Every entry is absent until it is
/// first written, and nothing is ever deleted.
#[derive(Clone, Debug, PartialEq, Eq)]
pub struct Store {
    pub admin: Option<String>,
    pub oracle_pubkey: Option<Vec<u8>>,
    pub oracle_key_type: Option<String>,
    pub oracle_data: Option<String>,
}

pub struct StoreView {
    pub admin: Option<Seq<char>>,
    pub oracle_pubkey: Option<Seq<u8>>,
    pub oracle_key_type: Option<Seq<char>>,
    pub oracle_data: Option<Seq<char>>,
}

impl View for Store {
    type V = StoreView;

    open spec fn view(&self) -> StoreView {
        StoreView {
            admin: text_of(self.admin),
            oracle_pubkey: match self.oracle_pubkey {
                Some(k) => Some(k@),
                None => None,
            },
            oracle_key_type: text_of(self.oracle_key_type),
            oracle_data: text_of(self.oracle_data),
        }
    }
}

impl StoreView {
    /// A store in which nothing has been written.
    pub open spec fn empty() -> StoreView {
        StoreView { admin: None, oracle_pubkey: None, oracle_key_type: None, oracle_data: None }
    }

    /// The stored algorithm tag, if there is one, is canonical.
    pub open spec fn wf(self) -> bool {
        self.oracle_key_type matches Some(tag) ==> is_canonical_key_type(tag)
    }

    /// Administrator, key and algorithm are all present.
    pub open spec fn configured(self) -> bool {
        self.admin is Some && self.oracle_pubkey is Some && self.oracle_key_type is Some
    }

    /// The store after `initialize`, given the normalized algorithm tag:
    /// without one the call fails.
    pub open spec fn initialized(self, admin: Seq<char>, pubkey: Seq<u8>, tag: Option<Seq<char>>) -> Result<
        StoreView,
        ContractError,
    > {
        match tag {
            Some(t) => Ok(
                StoreView { admin: Some(admin), oracle_pubkey: Some(pubkey), oracle_key_type: Some(t), ..self },
            ),
            None => Err(ContractError::InvalidAlgorithm),
        }
    }

    /// The store and the confirmed tag after `rotate_key`. `new_tag` is
    /// `None` where no algorithm was supplied, `Some(None)` where the
    /// supplied one names no recognized family.
    pub open spec fn rotated(self, caller: Seq<char>, pubkey: Seq<u8>, new_tag: Option<Option<Seq<char>>>) -> Result<
        (StoreView, Seq<char>),
        ContractError,
    > {
        match self.admin {
            None => Err(ContractError::NotConfigured),
            Some(admin) => if caller != admin {
                Err(ContractError::Unauthorized)
            } else {
                match new_tag {
                    Some(None) => Err(ContractError::InvalidAlgorithm),
                    Some(Some(t)) => Ok(
                        (StoreView { oracle_pubkey: Some(pubkey), oracle_key_type: Some(t), ..self }, t),
                    ),
                    None => match self.oracle_key_type {
                        Some(t) => Ok((StoreView { oracle_pubkey: Some(pubkey), ..self }, t)),
                        None => Err(ContractError::NotConfigured),
                    },
                }
            },
        }
    }

    /// The block-list that the stored oracle data stands for; empty while
    /// there is no data.
    pub open spec fn blocked(self) -> Seq<Seq<char>> {
        match self.oracle_data {
            Some(d) => blocked_entries(d),
            None => Seq::empty(),
        }
    }
}

/// The normalized form of an algorithm name as it was submitted.
pub open spec fn normalized_tag(algorithm_tag: Seq<char>) -> Option<Seq<char>> {
    key_type_of(lowercase(algorithm_tag))
}

/// The tag that a key rotation asks for: `None` where none was supplied,
/// `Some(None)` where the supplied one names no recognized family.
pub open spec fn requested_tag(new_key_type: Option<Seq<char>>) -> Option<Option<Seq<char>>> {
    match new_key_type {
        Some(t) => Some(normalized_tag(t)),
        None => None,
    }
}

/// The text of an optional string slice.
pub open spec fn slice_text_of(t: Option<&str>) -> Option<Seq<char>> {
    match t {
        Some(s) => Some(s@),
        None => None,
    }
}

impl Store {
    /// A store in which nothing has been written.
    pub fn new() -> (r: Store)
        ensures
            r@ == StoreView::empty(),
    {
        Store { admin: None, oracle_pubkey: None, oracle_key_type: None, oracle_data: None }
    }

    /// Sets administrator, key and algorithm at once. The algorithm name is
    /// normalized first; where it names no recognized family nothing is
    /// written.
    pub fn initialize(&mut self, admin: String, pubkey: Vec<u8>, algorithm_tag: &str) -> (r: Result<
        (),
        ContractError,
    >)
        ensures
            match old(self)@.initialized(admin@, pubkey@, normalized_tag(algorithm_tag@)) {
                Ok(state) => r is Ok && final(self)@ == state,
                Err(e) => r == Err::<(), ContractError>(e) && *final(self) == *old(self),
            },
    {
        match parse_key_type(algorithm_tag) {
            Some(t) => {
                self.admin = Some(admin);
                self.oracle_pubkey = Some(pubkey);
                self.oracle_key_type = Some(t.to_owned());
                Ok(())
            },
            None => Err(ContractError::InvalidAlgorithm),
        }
    }

    /// Replaces the oracle key, and the algorithm where a new name is given,
    /// which is normalized first. Only the administrator may do so. Returns
    /// the algorithm tag that is stored afterwards. On any error nothing is
    /// written.
    pub fn rotate_key(&mut self, caller: &str, pubkey: Vec<u8>, new_algorithm_tag: Option<&str>) -> (r:
        Result<String, ContractError>)
        ensures
            match old(self)@.rotated(
                caller@,
                pubkey@,
                requested_tag(slice_text_of(new_algorithm_tag)),
            ) {
                Ok((state, tag)) => final(self)@ == state && (r matches Ok(t) && t@ == tag),
                Err(e) => r == Err::<String, ContractError>(e) && *final(self) == *old(self),
            },
    {
        let authorized = match &self.admin {
            None => { return Err(ContractError::NotConfigured); },
            Some(admin) => same_text(caller, admin.as_str()),
        };
        if !authorized {
            return Err(ContractError::Unauthorized);
        }
        let confirmed: String = match new_algorithm_tag {
            Some(name) => match parse_key_type(name) {
                Some(t) => t.to_owned(),
                None => { return Err(ContractError::InvalidAlgorithm); },
            },
            None => match &self.oracle_key_type {
                Some(t) => t.clone(),
                None => { return Err(ContractError::NotConfigured); },
            },
        };
        if new_algorithm_tag.is_some() {
            self.oracle_key_type = Some(confirmed.clone());
        }
        self.oracle_pubkey = Some(pubkey);
        Ok(confirmed)
    }

    /// Overwrites the oracle data. Whoever calls this has checked the
    /// oracle's signature.
    pub fn update_data(&mut self, data: String)
        ensures
            final(self)@ == (StoreView { oracle_data: Some(data@), ..old(self)@ }),
    {
        self.oracle_data = Some(data);
    }

    /// The oracle data; absent before the first update.
    pub fn read_data(&self) -> (r: Option<String>)
        ensures
            text_of(r) == self@.oracle_data,
    {
        self.oracle_data.clone()
    }

    /// The block-list that the stored oracle data stands for.
    pub fn blocked_identities(&self) -> (r: Vec<String>)
        ensures
            texts(r@) == self@.blocked(),
    {
        match &self.oracle_data {
            Some(d) => parse_blocked_addresses(d.as_str()),
            None => {
                let r: Vec<String> = Vec::new();
                assert(texts(r@) =~= Seq::empty());
                r
            },
        }
    }
}

} // verus!
