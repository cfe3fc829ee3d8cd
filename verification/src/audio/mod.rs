//! Talking to PipeWire through `wpctl`: the numeric ids that `wpctl`
//! wants for a device, reading its volume and mute state, and the command
//! lines that change them.
use vstd::prelude::*;
use dashmap::DashMap;
use crate::text::{
    all_digits, chars_of, contains, decimal, decimal_string, digit_value, digits_value,
    lemma_digits_value_prefix, parse_u64, parse_u64_spec, push_char, push_decimal, split_whitespace,
    str_contains, string_of, tokens, unsigned_body, views,
};
use crate::audio::devices::{PwNode, PwNodeView, nodes_view, pw_dump_nodes, pw_dump_nodes_of};

pub mod devices;
pub mod monitor;

verus! {

broadcast use vstd::string::group_string_axioms;

// ---------------------------------------------------------------------
// The id cache
// ---------------------------------------------------------------------

#[verifier::external_type_specification]
#[verifier::external_body]
#[verifier::reject_recursive_types(K)]
#[verifier::reject_recursive_types(V)]
#[verifier::reject_recursive_types(S)]
pub struct ExDashMap<K, V, S>(DashMap<K, V, S>);

/// The entries of a `DashMap` from node names to numeric ids, as text.
pub uninterp spec fn id_map_entries(m: DashMap<String, String>) -> Map<Seq<char>, Seq<char>>;

/// No entries at all.
pub open spec fn no_ids() -> Map<Seq<char>, Seq<char>> {
    Map::empty()
}

/// `DashMap::new`: an empty map.
#[verifier::external_body]
fn id_map_new() -> (r: DashMap<String, String>)
    ensures
        id_map_entries(r) == no_ids(),
{
    DashMap::new()
}

/// `DashMap::get`, cloning the value found under `key`.
#[verifier::external_body]
fn id_map_get(m: &DashMap<String, String>, key: &str) -> (r: Option<String>)
    ensures
        r is Some <==> id_map_entries(*m).contains_key(key@),
        r matches Some(v) ==> v@ == id_map_entries(*m)[key@],
{
    m.get(key).map(|e| e.value().clone())
}

/// `DashMap::insert`: `key` now maps to `value`, the other entries stay.
#[verifier::external_body]
fn id_map_insert(m: &mut DashMap<String, String>, key: String, value: String)
    ensures
        id_map_entries(*final(m)) == id_map_entries(*old(m)).insert(key@, value@),
{
    m.insert(key, value);
}

/// `DashMap::remove`: the entry under `key` is gone, the others stay.
#[verifier::external_body]
fn id_map_remove(m: &mut DashMap<String, String>, key: &str)
    ensures
        id_map_entries(*final(m)) == id_map_entries(*old(m)).remove(key@),
{
    m.remove(key);
}

/// `DashMap::clear`: no entries are left.
#[verifier::external_body]
fn id_map_clear(m: &mut DashMap<String, String>)
    ensures
        id_map_entries(*final(m)) == no_ids(),
{
    m.clear();
}

/// Remembered numeric `wpctl` ids of devices, by their stable node name.
pub struct IdCache {
    map: DashMap<String, String>,
}

impl View for IdCache {
    type V = Map<Seq<char>, Seq<char>>;

    closed spec fn view(&self) -> Map<Seq<char>, Seq<char>> {
        id_map_entries(self.map)
    }
}

impl IdCache {
    /// An empty cache.
    pub fn new() -> (c: IdCache)
        ensures
            c@ == Map::<Seq<char>, Seq<char>>::empty(),
    {
        IdCache { map: id_map_new() }
    }

    /// The id remembered for the node named `name`.
    pub fn lookup(&self, name: &str) -> (r: Option<String>)
        ensures
            r is Some <==> self@.contains_key(name@),
            r matches Some(v) ==> v@ == self@[name@],
    {
        id_map_get(&self.map, name)
    }

    /// Remembers `id` for the node named `name`.
    pub fn remember(&mut self, name: String, id: String)
        ensures
            final(self)@ == old(self)@.insert(name@, id@),
    {
        id_map_insert(&mut self.map, name, id);
    }
}

/// Forgets the id remembered for one device (e.g. after it reconnected).
pub fn invalidate_id_cache(cache: &mut IdCache, device_id: &str)
    ensures
        final(cache)@ == old(cache)@.remove(device_id@),
{
    id_map_remove(&mut cache.map, device_id);
}

/// Forgets every remembered id (e.g. after a device came or went).
pub fn invalidate_all_id_caches(cache: &mut IdCache)
    ensures
        final(cache)@ == Map::<Seq<char>, Seq<char>>::empty(),
{
    id_map_clear(&mut cache.map);
}

// ---------------------------------------------------------------------
// Resolving a device to the id `wpctl` takes
// ---------------------------------------------------------------------

/// An id that `wpctl` takes as it is: a default alias such as
/// `@DEFAULT_AUDIO_SINK@` (anything starting with `@`), or a number.
pub open spec fn is_direct_id_spec(id: Seq<char>) -> bool {
    (id.len() > 0 && id[0] == '@') || parse_u64_spec(id) is Some
}

/// Whether `device_id` goes to `wpctl` unchanged.
pub fn is_direct_id(device_id: &str) -> (r: bool)
    ensures
        r == is_direct_id_spec(device_id@),
{
    let v = chars_of(device_id);
    if v.len() > 0 && v[0] == '@' {
        return true;
    }
    parse_u64(device_id).is_some()
}

/// What is known of a device's `wpctl` id without asking PipeWire: the
/// id itself when it is direct, else the remembered id, if any.
pub open spec fn known_id(cache: Map<Seq<char>, Seq<char>>, id: Seq<char>) -> Option<Seq<char>> {
    if is_direct_id_spec(id) {
        Some(id)
    } else if cache.contains_key(id) {
        Some(cache[id])
    } else {
        None
    }
}

/// The `wpctl` id of `device_id` when it is known without running
/// `pw-dump`; `None` means the node has to be looked up.
pub fn resolve_known_id(cache: &IdCache, device_id: &str) -> (r: Option<String>)
    ensures
        r is Some <==> known_id(cache@, device_id@) is Some,
        r matches Some(v) ==> known_id(cache@, device_id@) == Some(v@),
{
    if is_direct_id(device_id) {
        return Some(string_of(device_id));
    }
    cache.lookup(device_id)
}

/// The id of the first node named `name` that has an id.
pub open spec fn node_id_for(nodes: Seq<PwNodeView>, name: Seq<char>) -> Option<u64>
    decreases nodes.len(),
{
    if nodes.len() == 0 {
        None
    } else if nodes[0].node_name == Some(name) && nodes[0].id is Some {
        nodes[0].id
    } else {
        node_id_for(nodes.drop_first(), name)
    }
}

/// The id of the first node named `name` that has an id.
pub fn find_node_id(nodes: &Vec<PwNode>, name: &str) -> (r: Option<u64>)
    ensures
        r == node_id_for(nodes_view(nodes@), name@),
{
    let ghost all = nodes_view(nodes@);
    let n = nodes.len();
    let mut i: usize = 0;
    assert(all.skip(0) =~= all);
    while i < n
        invariant
            n == nodes.len(),
            i <= n,
            all == nodes_view(nodes@),
            node_id_for(all, name@) == node_id_for(all.skip(i as int), name@),
        decreases n - i,
    {
        let ghost rest = all.skip(i as int);
        assert(rest[0] == nodes@[i as int]@);
        assert(rest.drop_first() =~= all.skip(i + 1));
        let node = &nodes[i];
        let named = match &node.node_name {
            Some(s) => crate::text::str_eq(s.as_str(), name),
            None => false,
        };
        if named && node.id.is_some() {
            return node.id;
        }
        i = i + 1;
    }
    None
}

/// The id that a `pw-dump` text gives for the node named `name`.
pub open spec fn dump_id_for(dump: Option<Seq<char>>, name: Seq<char>) -> Option<u64> {
    match dump {
        Some(text) => match pw_dump_nodes(text) {
            Some(nodes) => node_id_for(nodes, name),
            None => None,
        },
        None => None,
    }
}

/// Finishes resolving `device_id` with the output of `pw-dump Node`
/// (`None` when the command could not run): the id of the first node of
/// that name, which is then remembered; without one, `device_id` itself,
/// and the cache stays as it was.
pub fn resolve_from_dump(cache: &mut IdCache, device_id: &str, dump: Option<&str>) -> (r: String)
    ensures
        ({
            let text = match dump {
                Some(t) => Some(t@),
                None => None,
            };
            match dump_id_for(text, device_id@) {
                Some(id) => {
                    &&& r@ == decimal(id as nat)
                    &&& final(cache)@ == old(cache)@.insert(device_id@, decimal(id as nat))
                },
                None => {
                    &&& r@ == device_id@
                    &&& final(cache)@ == old(cache)@
                },
            }
        }),
{
    let text = match dump {
        Some(t) => t,
        None => return string_of(device_id),
    };
    let nodes = match pw_dump_nodes_of(text) {
        Some(v) => v,
        None => return string_of(device_id),
    };
    match find_node_id(&nodes, device_id) {
        Some(id) => {
            let resolved = decimal_string(id);
            cache.remember(string_of(device_id), decimal_string(id));
            resolved
        },
        None => string_of(device_id),
    }
}

/// Once a lookup has found an id for a device, the device resolves to that
/// id without another lookup, until its entry is forgotten.
pub proof fn lemma_lookup_is_remembered(
    before: Map<Seq<char>, Seq<char>>,
    after: Map<Seq<char>, Seq<char>>,
    device_id: Seq<char>,
    id: u64,
)
    requires
        !is_direct_id_spec(device_id),
        after == before.insert(device_id, decimal(id as nat)),
    ensures
        known_id(after, device_id) == Some(decimal(id as nat)),
{
}

/// A resolved id is a number, so it goes to `wpctl` unchanged.
pub proof fn lemma_resolved_id_is_direct(id: u64)
    ensures
        is_direct_id_spec(decimal(id as nat)),
        known_id(Map::empty(), decimal(id as nat)) == Some(decimal(id as nat)),
{
    crate::text::lemma_parse_decimal(id);
}

/// Forgetting a device's id means that a node name must be looked up
/// again, while the other devices keep theirs.
pub proof fn lemma_invalidate_forgets(
    before: Map<Seq<char>, Seq<char>>,
    device_id: Seq<char>,
    other: Seq<char>,
)
    requires
        !is_direct_id_spec(device_id),
        other != device_id,
    ensures
        known_id(before.remove(device_id), device_id) is None,
        known_id(before.remove(device_id), other) == known_id(before, other),
{
}

/// With every id forgotten, only direct ids resolve without a lookup.
pub proof fn lemma_invalidate_all_forgets(device_id: Seq<char>)
    ensures
        known_id(Map::empty(), device_id) is Some <==> is_direct_id_spec(device_id),
{
}

// ---------------------------------------------------------------------
// Volume
// ---------------------------------------------------------------------

/// The position of the first `c` in `s`, or -1.
pub open spec fn first_index(s: Seq<char>, c: char) -> int
    decreases s.len(),
{
    if s.len() == 0 {
        -1
    } else if s[0] == c {
        0
    } else {
        let k = first_index(s.drop_first(), c);
        if k < 0 {
            -1
        } else {
            k + 1
        }
    }
}

/// `10` to the power `n`.
pub open spec fn pow10(n: nat) -> nat
    decreases n,
{
    if n == 0 {
        1
    } else {
        10 * pow10((n - 1) as nat)
    }
}

/// The largest magnitude a number is read with; larger ones are read as
/// this, which is far beyond anything a volume is shown or set at.
pub const DECIMAL_CAP: u64 = 1000000000000000;

/// A number without its leading `+` or `-`.
pub open spec fn signed_body(s: Seq<char>) -> Seq<char> {
    if s.len() > 0 && (s[0] == '+' || s[0] == '-') {
        s.drop_first()
    } else {
        s
    }
}

/// The first `n` digits of the fraction digits `f` as a number, `f`
/// padded with zeros where it is shorter.
pub open spec fn frac_digits(f: Seq<char>, n: nat) -> int
    decreases n,
{
    if n == 0 {
        0
    } else {
        frac_digits(f, (n - 1) as nat) * 10 + (if f.len() >= n {
            digit_value(f[n - 1])
        } else {
            0
        })
    }
}

/// The value of a decimal number in units of `10^-places`: an optional
/// `+` or `-`, digits, and optionally a point and more digits, with at
/// least one digit in all. Fraction digits beyond `places` are dropped
/// (rounding toward zero), and the magnitude is at most `DECIMAL_CAP`.
pub open spec fn scaled_decimal(tok: Seq<char>, places: nat) -> Option<int> {
    let body = signed_body(tok);
    let dot = first_index(body, '.');
    let whole = if dot < 0 { body } else { body.take(dot) };
    let frac = if dot < 0 { Seq::<char>::empty() } else { body.skip(dot + 1) };
    if all_digits(whole) && all_digits(frac) && whole.len() + frac.len() > 0 {
        let m = digits_value(whole) * pow10(places) + frac_digits(frac, places);
        let c = if m > DECIMAL_CAP { DECIMAL_CAP as int } else { m };
        Some(if tok[0] == '-' { -c } else { c })
    } else {
        None
    }
}

/// The volume a `wpctl` number such as `0.45` stands for, in millionths
/// of full volume (`1.0`); 0 when it is no such number.
pub open spec fn volume_reading(tok: Seq<char>) -> int {
    match scaled_decimal(tok, 6) {
        Some(v) => v,
        None => 0,
    }
}

/// What `wpctl get-volume` output says: the volume in millionths (the
/// second word of the output, 0 when it is missing or no number) and
/// whether the device is muted (the output holds `[MUTED]`).
pub open spec fn wpctl_volume_spec(out: Seq<char>) -> (int, bool) {
    let words = tokens(out);
    let volume = if words.len() > 1 { volume_reading(words[1]) } else { 0 };
    (volume, contains(out, "[MUTED]"@))
}

proof fn lemma_first_index(s: Seq<char>, c: char)
    ensures
        -1 <= first_index(s, c) < s.len(),
        first_index(s, c) >= 0 ==> s[first_index(s, c)] == c,
        forall|j: int| 0 <= j < s.len() && (first_index(s, c) < 0 || j < first_index(s, c)) ==> s[j] != c,
    decreases s.len(),
{
    if s.len() > 0 {
        lemma_first_index(s.drop_first(), c);
        assert forall|j: int| 0 <= j < s.len() && (first_index(s, c) < 0 || j < first_index(s, c)) implies s[j] != c by {
            if j > 0 {
                assert(s[j] == s.drop_first()[j - 1]);
            }
        }
    }
}

/// The first position at or after `lo` that holds `c`, or the length.
fn index_of_from(v: &Vec<char>, lo: usize, c: char) -> (k: usize)
    requires
        lo <= v.len(),
    ensures
        lo <= k <= v.len(),
        forall|j: int| lo <= j < k ==> v@[j] != c,
        k < v.len() ==> v@[k as int] == c,
{
    let mut k = lo;
    while k < v.len() && v[k] != c
        invariant
            lo <= k <= v.len(),
            forall|j: int| lo <= j < k ==> v@[j] != c,
        decreases v.len() - k,
    {
        k = k + 1;
    }
    k
}

/// Whether `v[lo..hi]` is all ASCII digits.
fn digits_in(v: &Vec<char>, lo: usize, hi: usize) -> (r: bool)
    requires
        lo <= hi <= v.len(),
    ensures
        r == all_digits(v@.subrange(lo as int, hi as int)),
{
    let mut k = lo;
    while k < hi
        invariant
            lo <= k <= hi <= v.len(),
            forall|j: int| lo <= j < k ==> crate::text::is_digit(v@[j]),
        decreases hi - k,
    {
        if !('0' <= v[k] && v[k] <= '9') {
            assert(v@.subrange(lo as int, hi as int)[k - lo] == v@[k as int]);
            return false;
        }
        k = k + 1;
    }
    assert forall|j: int| 0 <= j < hi - lo implies crate::text::is_digit(
        #[trigger] v@.subrange(lo as int, hi as int)[j],
    ) by {
        assert(v@.subrange(lo as int, hi as int)[j] == v@[lo + j]);
    }
    true
}

/// The number the digits `v[lo..hi]` write, if it is at most `limit`.
fn value_in(v: &Vec<char>, lo: usize, hi: usize, limit: u64) -> (r: Option<u64>)
    requires
        lo <= hi <= v.len(),
        all_digits(v@.subrange(lo as int, hi as int)),
        limit < u64::MAX / 10 - 10,
    ensures
        r matches Some(x) ==> x == digits_value(v@.subrange(lo as int, hi as int)) && x <= limit,
        r is None ==> digits_value(v@.subrange(lo as int, hi as int)) > limit,
{
    let ghost d = v@.subrange(lo as int, hi as int);
    let mut acc: u64 = 0;
    let mut k = lo;
    while k < hi
        invariant
            lo <= k <= hi <= v.len(),
            d == v@.subrange(lo as int, hi as int),
            all_digits(d),
            limit < u64::MAX / 10 - 10,
            acc <= limit,
            acc as int == digits_value(d.take(k - lo)),
        decreases hi - k,
    {
        assert(d[k - lo] == v@[k as int]);
        assert(crate::text::is_digit(d[k - lo]));
        assert(d.take(k + 1 - lo).drop_last() =~= d.take(k - lo));
        acc = acc * 10 + (v[k] as u32 - 48) as u64;
        k = k + 1;
        if acc > limit {
            proof {
                lemma_digits_value_prefix(d, k - lo);
            }
            return None;
        }
    }
    assert(d.take(hi - lo) =~= d);
    Some(acc)
}

proof fn lemma_pow10_small(j: nat)
    requires
        j <= 6,
    ensures
        1 <= pow10(j) <= 1000000,
{
    reveal_with_fuel(pow10, 7);
}

/// `10` to the power `n`, for `n` up to 6.
fn pow10_of(n: usize) -> (r: u64)
    requires
        n <= 6,
    ensures
        r == pow10(n as nat),
        1 <= r <= 1000000,
{
    proof {
        reveal_with_fuel(pow10, 7);
    }
    if n == 0 {
        1
    } else if n == 1 {
        10
    } else if n == 2 {
        100
    } else if n == 3 {
        1000
    } else if n == 4 {
        10000
    } else if n == 5 {
        100000
    } else {
        1000000
    }
}

/// Reads a decimal number (see `scaled_decimal`) in units of
/// `10^-places`.
pub fn parse_scaled(tok: &Vec<char>, places: usize) -> (r: Option<i64>)
    requires
        places <= 6,
    ensures
        match r {
            Some(x) => scaled_decimal(tok@, places as nat) == Some(x as int),
            None => scaled_decimal(tok@, places as nat) is None,
        },
{
    let n = tok.len();
    let neg = n > 0 && tok[0] == '-';
    let start: usize = if n > 0 && (tok[0] == '+' || tok[0] == '-') { 1 } else { 0 };
    let ghost body = signed_body(tok@);
    assert(body =~= tok@.skip(start as int));
    let k = index_of_from(tok, start, '.');
    proof {
        lemma_first_index(body, '.');
        let fi = first_index(body, '.');
        if k < n {
            assert(body[k - start] == '.');
            assert(fi == k - start);
        } else {
            assert(fi < 0);
        }
    }
    let ghost dot = first_index(body, '.');
    let ghost whole = if dot < 0 { body } else { body.take(dot) };
    let ghost frac = if dot < 0 { Seq::<char>::empty() } else { body.skip(dot + 1) };
    assert(whole =~= tok@.subrange(start as int, k as int));
    let frac_lo: usize = if k < n { k + 1 } else { n };
    assert(frac =~= tok@.subrange(frac_lo as int, n as int));
    let whole_ok = digits_in(tok, start, k);
    let frac_ok = digits_in(tok, frac_lo, n);
    if !whole_ok || !frac_ok || (k == start && frac_lo == n) {
        return None;
    }
    let scale = pow10_of(places);
    let mut f: u64 = 0;
    let mut i: usize = 0;
    while i < places
        invariant
            i <= places <= 6,
            frac_lo <= n == tok.len(),
            frac == tok@.subrange(frac_lo as int, n as int),
            all_digits(frac),
            f == frac_digits(frac, i as nat),
            f < pow10(i as nat),
        decreases places - i,
    {
        let d: u64 = if i < n - frac_lo {
            assert(frac[i as int] == tok@[frac_lo + i]);
            assert(crate::text::is_digit(frac[i as int]));
            (tok[frac_lo + i] as u32 - 48) as u64
        } else {
            0
        };
        proof {
            lemma_pow10_small(i as nat);
            lemma_pow10_small((i + 1) as nat);
        }
        f = f * 10 + d;
        i = i + 1;
    }
    let cap: u64 = DECIMAL_CAP;
    let m: u64 = match value_in(tok, start, k, cap) {
        None => cap,
        Some(x) => {
            if x > cap / scale {
                assert(x * scale > cap) by (nonlinear_arith)
                    requires
                        x > cap / scale,
                        scale >= 1,
                ;
                cap
            } else {
                assert(x * scale <= cap) by (nonlinear_arith)
                    requires
                        x <= cap / scale,
                        scale >= 1,
                ;
                let v = x * scale + f;
                if v > cap {
                    cap
                } else {
                    v
                }
            }
        },
    };
    proof {
        if digits_value(whole) > cap {
            assert(digits_value(whole) * pow10(places as nat) >= digits_value(whole)) by (nonlinear_arith)
                requires
                    pow10(places as nat) >= 1,
            ;
        }
    }
    assert(n > 0);
    assert(tok@[0] == '-' <==> neg);
    if neg {
        Some(-(m as i64))
    } else {
        Some(m as i64)
    }
}

/// Reads a `wpctl` volume number into millionths of full volume (0 when
/// it is none).
pub fn parse_volume_token(tok: &Vec<char>) -> (r: i64)
    ensures
        r as int == volume_reading(tok@),
{
    match parse_scaled(tok, 6) {
        Some(v) => v,
        None => 0,
    }
}

/// Reads `wpctl get-volume` output into the volume in millionths of full
/// volume and the mute state.
pub fn parse_wpctl_volume(output: &str) -> (r: (i64, bool))
    ensures
        (r.0 as int, r.1) == wpctl_volume_spec(output@),
{
    let words = split_whitespace(output);
    let muted = str_contains(output, "[MUTED]");
    let volume = if words.len() > 1 {
        assert(views(words@)[1] == words@[1]@);
        parse_volume_token(&words[1])
    } else {
        0
    };
    (volume, muted)
}

/// The highest volume the plugin sets, in hundredths.
pub const MAX_VOLUME: u32 = 150;

/// A volume clamped to the range the plugin sets (0 to 150 hundredths).
pub open spec fn clamp_volume(p: int) -> int {
    if p > 150 {
        150
    } else if p < 0 {
        0
    } else {
        p
    }
}

/// A volume in hundredths written with two decimal places (`{:.2}` of the
/// clamped volume as a fraction of one).
pub open spec fn volume_text(p: int) -> Seq<char> {
    let c = clamp_volume(p);
    decimal((c / 100) as nat) + seq!['.', crate::text::digit_char((c % 100) / 10), crate::text::digit_char(c % 10)]
}

/// The text that `wpctl set-volume` is given for a volume of `percent`
/// hundredths, clamped to 0..=150: `0.45` for 45.
pub fn format_volume(percent: u32) -> (r: String)
    ensures
        r@ == volume_text(percent as int),
{
    let c: u32 = if percent > MAX_VOLUME { MAX_VOLUME } else { percent };
    let mut out = String::new();
    push_decimal(&mut out, (c / 100) as u64);
    push_char(&mut out, '.');
    push_char(&mut out, (48u8 + ((c % 100) / 10) as u8) as char);
    push_char(&mut out, (48u8 + (c % 10) as u8) as char);
    assert(out@ =~= volume_text(percent as int));
    out
}

proof fn lemma_first_index_at(s: Seq<char>, c: char, k: int)
    requires
        0 <= k < s.len(),
        s[k] == c,
        forall|j: int| 0 <= j < k ==> s[j] != c,
    ensures
        first_index(s, c) == k,
{
    lemma_first_index(s, c);
}

/// A decimal number written with digits only reads back as its value,
/// scaled.
proof fn lemma_digits_scaled(d: Seq<char>, places: nat)
    requires
        d.len() > 0,
        all_digits(d),
        digits_value(d) * pow10(places) <= DECIMAL_CAP,
    ensures
        scaled_decimal(d, places) == Some((digits_value(d) * pow10(places)) as int),
{
    assert(crate::text::is_digit(d[0]));
    assert(signed_body(d) == d);
    lemma_first_index(d, '.');
    assert(first_index(d, '.') < 0) by {
        if first_index(d, '.') >= 0 {
            assert(crate::text::is_digit(d[first_index(d, '.')]));
        }
    }
    assert(frac_digits(Seq::<char>::empty(), places) == 0) by {
        lemma_frac_digits_empty(places);
    }
}

proof fn lemma_frac_digits_empty(n: nat)
    ensures
        frac_digits(Seq::<char>::empty(), n) == 0,
    decreases n,
{
    if n > 0 {
        lemma_frac_digits_empty((n - 1) as nat);
    }
}

/// The text written for a volume reads back as the clamped volume, in
/// millionths.
pub proof fn lemma_volume_text_reads_back(p: int)
    ensures
        scaled_decimal(volume_text(p), 6) == Some(clamp_volume(p) * 10000),
        volume_reading(volume_text(p)) == clamp_volume(p) * 10000,
        0 <= clamp_volume(p) <= 150,
{
    let c = clamp_volume(p);
    let w = decimal((c / 100) as nat);
    let t = volume_text(p);
    crate::text::lemma_decimal_digits((c / 100) as nat);
    assert(t[0] == w[0]);
    assert(signed_body(t) == t);
    assert(t[w.len() as int] == '.');
    assert forall|j: int| 0 <= j < w.len() implies t[j] != '.' by {
        assert(t[j] == w[j]);
        assert(crate::text::is_digit(w[j]));
    }
    lemma_first_index_at(t, '.', w.len() as int);
    assert(t.take(w.len() as int) =~= w);
    let frac = t.skip(w.len() + 1 as int);
    assert(frac =~= seq![crate::text::digit_char((c % 100) / 10), crate::text::digit_char(c % 10)]);
    assert(crate::text::is_digit(frac[0]) && crate::text::is_digit(frac[1]));
    assert(all_digits(frac));
    assert(digit_value(frac[0]) == (c % 100) / 10);
    assert(digit_value(frac[1]) == c % 10);
    reveal_with_fuel(frac_digits, 7);
    reveal_with_fuel(pow10, 7);
    assert(frac_digits(frac, 6) == ((c % 100) / 10) * 100000 + (c % 10) * 10000);
    assert((c / 100) * 1000000 + ((c % 100) / 10) * 100000 + (c % 10) * 10000 == c * 10000);
    assert(t[0] != '-');
}

/// The output of `wpctl get-volume` for a device at a volume of `p`
/// hundredths: `Volume: 0.45`, followed by ` [MUTED]` when muted, and a
/// line break. This is the form the parser is written for.
pub open spec fn wpctl_output(p: int, muted: bool) -> Seq<char> {
    "Volume: "@ + volume_text(p) + (if muted { " [MUTED]\n"@ } else { "\n"@ })
}

/// Reading back the report of a volume that was set gives that volume
/// (clamped to 0..=150 hundredths, read in millionths) and the mute state.
pub proof fn lemma_wpctl_reads_back(p: int, muted: bool)
    ensures
        wpctl_volume_spec(wpctl_output(p, muted)) == (clamp_volume(p) * 10000, muted),
{
    reveal_strlit("Volume: ");
    reveal_strlit(" [MUTED]\n");
    reveal_strlit("\n");
    reveal_strlit("[MUTED]");
    let t = volume_text(p);
    let c = clamp_volume(p);
    let w = decimal((c / 100) as nat);
    crate::text::lemma_decimal_digits((c / 100) as nat);
    lemma_volume_text_reads_back(p);
    let tail: Seq<char> = if muted { " [MUTED]\n"@ } else { "\n"@ };
    let v: Seq<char> = seq!['V', 'o', 'l', 'u', 'm', 'e', ':'];
    let out = wpctl_output(p, muted);
    assert("Volume: "@ =~= v + seq![' ']);
    assert(out =~= v + (seq![' '] + (t + tail)));
    assert forall|j: int| 0 <= j < t.len() implies !crate::text::is_ws(#[trigger] t[j]) && t[j] != '[' by {
        if j < w.len() {
            assert(t[j] == w[j]);
            assert(crate::text::is_digit(w[j]));
        }
    }
    assert forall|j: int| 0 <= j < v.len() implies !crate::text::is_ws(#[trigger] v[j]) by {}
    crate::text::lemma_tokens_word(v, seq![' '] + (t + tail), seq![]);
    assert(Seq::<char>::empty() + v =~= v);
    crate::text::lemma_tokens_word_ends(seq![' '] + (t + tail), v);
    assert((seq![' '] + (t + tail)).drop_first() =~= t + tail);
    crate::text::lemma_tokens_word(t, tail, seq![]);
    assert(Seq::<char>::empty() + t =~= t);
    assert(t.len() > 0);
    crate::text::lemma_tokens_word_ends(tail, t);
    assert(tokens(out)[1] == t);
    let pat: Seq<char> = "[MUTED]"@;
    if muted {
        let i: int = (v.len() + 1 + t.len() + 1) as int;
        assert(out.subrange(i, i + 7) =~= pat);
        assert(crate::text::occurs_at(out, pat, i));
    } else {
        assert forall|i: int| !#[trigger] crate::text::occurs_at(out, pat, i) by {
            if crate::text::occurs_at(out, pat, i) {
                assert(out.subrange(i, i + 7)[0] == out[i]);
                assert(pat[0] == '[');
                let k = i - v.len() - 1;
                if 0 <= k < t.len() {
                    assert(out[i] == t[k]);
                }
            }
        }
    }
}

// ---------------------------------------------------------------------
// Relative volume changes
// ---------------------------------------------------------------------

/// `s` without its trailing `+` and `-` signs.
pub open spec fn trim_end_signs(s: Seq<char>) -> Seq<char>
    decreases s.len(),
{
    if s.len() > 0 && (s.last() == '+' || s.last() == '-') {
        trim_end_signs(s.drop_last())
    } else {
        s
    }
}

/// `s` without its trailing `%` signs.
pub open spec fn trim_end_percent(s: Seq<char>) -> Seq<char>
    decreases s.len(),
{
    if s.len() > 0 && s.last() == '%' {
        trim_end_percent(s.drop_last())
    } else {
        s
    }
}

/// The size of a relative change such as `5%+`, in millionths of full
/// volume: the number before the `%` and the signs is a percentage (so
/// `5` is 50000 and `-5` is -50000); 0 when it is no number.
pub open spec fn delta_amount(delta: Seq<char>) -> int {
    match scaled_decimal(trim_end_percent(trim_end_signs(delta)), 4) {
        Some(v) => v,
        None => 0,
    }
}

/// A relative change raises the volume when it ends in `+`.
pub open spec fn delta_raises(delta: Seq<char>) -> bool {
    delta.len() > 0 && delta.last() == '+'
}

/// The volume, in millionths, that a relative change asks for from
/// `current` millionths, before clamping.
pub open spec fn adjusted_volume(current: int, delta: Seq<char>) -> int {
    if delta_raises(delta) {
        current + delta_amount(delta)
    } else {
        current - delta_amount(delta)
    }
}

/// A volume of `v` millionths as `wpctl set-volume` is given it, in
/// hundredths: clamped to 0..=1.5 and written with two decimal places,
/// halves rounded up.
pub open spec fn settable_hundredths(v: int) -> int {
    let c = if v > 1500000 {
        1500000
    } else if v < 0 {
        0
    } else {
        v
    };
    (c + 5000) / 10000
}

/// The length of `s.take(n)` without trailing signs.
fn trim_signs_len(s: &Vec<char>, n: usize) -> (k: usize)
    requires
        n <= s.len(),
    ensures
        k <= n,
        s@.take(k as int) == trim_end_signs(s@.take(n as int)),
{
    let mut k = n;
    while k > 0 && (s[k - 1] == '+' || s[k - 1] == '-')
        invariant
            k <= n <= s.len(),
            trim_end_signs(s@.take(n as int)) == trim_end_signs(s@.take(k as int)),
        decreases k,
    {
        assert(s@.take(k as int).drop_last() =~= s@.take(k - 1));
        k = k - 1;
    }
    k
}

/// The length of `s.take(n)` without trailing `%`.
fn trim_percent_len(s: &Vec<char>, n: usize) -> (k: usize)
    requires
        n <= s.len(),
    ensures
        k <= n,
        s@.take(k as int) == trim_end_percent(s@.take(n as int)),
{
    let mut k = n;
    while k > 0 && s[k - 1] == '%'
        invariant
            k <= n <= s.len(),
            trim_end_percent(s@.take(n as int)) == trim_end_percent(s@.take(k as int)),
        decreases k,
    {
        assert(s@.take(k as int).drop_last() =~= s@.take(k - 1));
        k = k - 1;
    }
    k
}

/// The volume, in hundredths, that `delta` (such as `5%+` or `10%-`) sets
/// from `current` millionths: up for a trailing `+`, down otherwise, then
/// clamped to 0..=150 and rounded to hundredths as `wpctl` is given it.
pub fn adjust_volume_target(current: i64, delta: &str) -> (r: u32)
    ensures
        r as int == applied_volume(current as int, delta@),
        r <= MAX_VOLUME,
{
    let v = chars_of(delta);
    let n = v.len();
    let k1 = trim_signs_len(&v, n);
    let k2 = trim_percent_len(&v, k1);
    assert(v@.take(n as int) =~= v@);
    assert(v@.take(k2 as int) =~= v@.subrange(0, k2 as int));
    let number = chars_of(delta.substring_char(0, k2));
    let amount: i64 = match parse_scaled(&number, 4) {
        Some(x) => x,
        None => 0,
    };
    let raises = n > 0 && v[n - 1] == '+';
    let target: i128 = if raises {
        current as i128 + amount as i128
    } else {
        current as i128 - amount as i128
    };
    let c: i128 = if target > 1500000 {
        1500000
    } else if target < 0 {
        0
    } else {
        target
    };
    ((c + 5000) / 10000) as u32
}

/// The text of a relative change of `step` percent, up or down.
pub open spec fn delta_text(step: nat, up: bool) -> Seq<char> {
    decimal(step) + seq!['%', if up { '+' } else { '-' }]
}

/// A change written as `{step}%+` or `{step}%-` reads back as that step
/// (in millionths of full volume) and direction.
pub proof fn lemma_delta_text(step: u32, up: bool)
    ensures
        delta_amount(delta_text(step as nat, up)) == step * 10000,
        delta_raises(delta_text(step as nat, up)) == up,
{
    let d = decimal(step as nat);
    let t = delta_text(step as nat, up);
    crate::text::lemma_decimal_digits(step as nat);
    assert(t.drop_last() =~= d.push('%'));
    assert(trim_end_signs(d.push('%')) == d.push('%'));
    assert(trim_end_signs(t) == d.push('%'));
    assert(d.push('%').drop_last() =~= d);
    assert(crate::text::is_digit(d.last()));
    assert(trim_end_percent(d) == d);
    assert(trim_end_percent(d.push('%')) == d);
    reveal_with_fuel(pow10, 5);
    lemma_digits_scaled(d, 4);
}

/// The volume, in hundredths, that a device ends up with when a relative
/// change is applied to `current` millionths.
pub open spec fn applied_volume(current: int, delta: Seq<char>) -> int {
    settable_hundredths(adjusted_volume(current, delta))
}

/// A step up followed by the same step down gives back the volume, as long
/// as the step up stays within the maximum: the volume set after the step
/// up is read back in millionths before the step down.
pub proof fn lemma_step_up_then_down(current: u32, step: u32)
    requires
        current as int + step as int <= 150,
    ensures
        applied_volume(current * 10000, delta_text(step as nat, true)) == current + step,
        applied_volume(
            applied_volume(current * 10000, delta_text(step as nat, true)) * 10000,
            delta_text(step as nat, false),
        ) == current,
{
    lemma_delta_text(step, true);
    lemma_delta_text(step, false);
}

/// Whatever the volume and the change, the volume that results lies in
/// 0..=150 hundredths.
pub proof fn lemma_applied_volume_range(current: int, delta: Seq<char>)
    ensures
        0 <= applied_volume(current, delta) <= 150,
{
}

// ---------------------------------------------------------------------
// wpctl command lines
// ---------------------------------------------------------------------

/// What is asked of `wpctl` for one device.
#[derive(Clone, Copy, Debug, PartialEq, Eq, Structural)]
pub enum WpctlCommand {
    /// Read the volume and mute state.
    GetVolume,
    /// Set the volume, in hundredths (clamped to 0..=150).
    SetVolume(u32),
    /// Flip the mute state.
    ToggleMute,
    /// Set the mute state.
    SetMute(bool),
}

/// The views of a sequence of strings.
pub open spec fn strings_view(v: Seq<String>) -> Seq<Seq<char>> {
    v.map_values(|s: String| s@)
}

/// The arguments given to `wpctl` for `cmd` on the device `id`.
pub open spec fn wpctl_args_spec(cmd: WpctlCommand, id: Seq<char>) -> Seq<Seq<char>> {
    match cmd {
        WpctlCommand::GetVolume => seq!["get-volume"@, id],
        WpctlCommand::SetVolume(p) => seq!["set-volume"@, id, volume_text(p as int)],
        WpctlCommand::ToggleMute => seq!["set-mute"@, id, "toggle"@],
        WpctlCommand::SetMute(m) => seq!["set-mute"@, id, if m { "1"@ } else { "0"@ }],
    }
}

/// The arguments to run `wpctl` with for `cmd` on the device whose
/// `wpctl` id is `wpctl_id`.
pub fn wpctl_args(cmd: WpctlCommand, wpctl_id: &str) -> (r: Vec<String>)
    ensures
        strings_view(r@) == wpctl_args_spec(cmd, wpctl_id@),
{
    let mut out: Vec<String> = Vec::new();
    match cmd {
        WpctlCommand::GetVolume => {
            out.push(string_of("get-volume"));
            out.push(string_of(wpctl_id));
        },
        WpctlCommand::SetVolume(p) => {
            out.push(string_of("set-volume"));
            out.push(string_of(wpctl_id));
            out.push(format_volume(p));
        },
        WpctlCommand::ToggleMute => {
            out.push(string_of("set-mute"));
            out.push(string_of(wpctl_id));
            out.push(string_of("toggle"));
        },
        WpctlCommand::SetMute(m) => {
            out.push(string_of("set-mute"));
            out.push(string_of(wpctl_id));
            out.push(string_of(if m { "1" } else { "0" }));
        },
    }
    assert(strings_view(out@) =~= wpctl_args_spec(cmd, wpctl_id@));
    out
}

} // verus!
