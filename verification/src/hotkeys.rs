//! The hotkey settings, each written `function,key`, read as a map from function to key.
use vstd::prelude::*;
use vstd::string::*;

verus! {

/// Index of the first `,` in `s`, or `s.len()` when there is none.
pub open spec fn comma_index(s: Seq<char>) -> int
    decreases s.len(),
{
    if s.len() == 0 {
        0
    } else if s[0] == ',' {
        0
    } else {
        1 + comma_index(s.drop_first())
    }
}

/// The first two `,`-separated fields of a hotkey setting; none when it holds no `,`.
pub open spec fn spec_parse_hotkey(s: Seq<char>) -> Option<(Seq<char>, Seq<char>)> {
    let i: int = comma_index(s);
    if i < s.len() {
        let rest = s.subrange(i + 1, s.len() as int);
        Some((s.subrange(0, i), rest.subrange(0, comma_index(rest))))
    } else {
        None
    }
}

/// The map that a list of hotkey settings gives: later settings of a function win,
/// and settings without a `,` are skipped.
pub open spec fn spec_hotkey_map(items: Seq<Seq<char>>) -> Map<Seq<char>, Seq<char>>
    decreases items.len(),
{
    if items.len() == 0 {
        Map::empty()
    } else {
        let m = spec_hotkey_map(items.drop_last());
        match spec_parse_hotkey(items.last()) {
            Some((f, k)) => m.insert(f, k),
            None => m,
        }
    }
}

/// The map that a list of (function, key) pairs gives, later pairs winning.
pub open spec fn pairs_map(pairs: Seq<(Seq<char>, Seq<char>)>) -> Map<Seq<char>, Seq<char>>
    decreases pairs.len(),
{
    if pairs.len() == 0 {
        Map::empty()
    } else {
        pairs_map(pairs.drop_last()).insert(pairs.last().0, pairs.last().1)
    }
}

pub open spec fn pair_view(p: (String, String)) -> (Seq<char>, Seq<char>) {
    (p.0@, p.1@)
}

proof fn lemma_comma_index(t: Seq<char>, r: int)
    requires
        0 <= r <= t.len(),
        forall|k: int| 0 <= k < r ==> t[k] != ',',
        r == t.len() || t[r] == ',',
    ensures
        comma_index(t) == r,
    decreases t.len(),
{
    if t.len() == 0 {
    } else if r == 0 {
    } else {
        let u = t.drop_first();
        assert forall|k: int| 0 <= k < r - 1 implies u[k] != ',' by {
            assert(u[k] == t[k + 1]);
        }
        if r < t.len() {
            assert(u[r - 1] == t[r]);
        }
        lemma_comma_index(u, r - 1);
    }
}

/// Index of the first `,` in `s` at or after `from`, or the length of `s`.
fn find_comma(s: &str, from: usize, n: usize) -> (r: usize)
    requires
        n == s@.len(),
        from <= n,
    ensures
        from <= r <= n,
        r - from == comma_index(s@.subrange(from as int, n as int)),
{
    let mut i: usize = from;
    while i < n && s.get_char(i) != ','
        invariant
            from <= i <= n,
            n == s@.len(),
            forall|k: int| from <= k < i ==> s@[k] != ',',
        decreases n - i,
    {
        i = i + 1;
    }
    proof {
        let t = s@.subrange(from as int, n as int);
        assert forall|k: int| 0 <= k < i - from implies t[k] != ',' by {
            assert(t[k] == s@[from + k]);
        }
        if i < n {
            assert(t[i - from] == s@[i as int]);
        }
        lemma_comma_index(t, i - from);
    }
    i
}

/// Splits a hotkey setting into its function and its key: the first two `,`-separated
/// fields, none when the setting holds no `,`.
pub fn parse_hotkey(item: &str) -> (r: Option<(String, String)>)
    ensures
        r matches Some(p) ==> spec_parse_hotkey(item@) == Some(pair_view(p)),
        r is None ==> spec_parse_hotkey(item@) is None,
{
    let n: usize = item.unicode_len();
    let i: usize = find_comma(item, 0, n);
    assert(item@.subrange(0, n as int) =~= item@);
    if i < n {
        let j: usize = find_comma(item, i + 1, n);
        let func = item.substring_char(0, i);
        let key = item.substring_char(i + 1, j);
        proof {
            let rest = item@.subrange(i + 1, n as int);
            assert(rest.subrange(0, j - (i + 1)) =~= item@.subrange(i + 1, j as int));
        }
        Some((String::from_str(func), String::from_str(key)))
    } else {
        None
    }
}

/// The hotkeys of the tray menu: which key is bound to which function. The bindings are
/// kept in the order they were read; a later binding of a function hides the earlier ones,
/// as inserting them in that order into a map does.
pub struct HotkeyMap {
    pairs: Vec<(String, String)>,
}

impl View for HotkeyMap {
    type V = Map<Seq<char>, Seq<char>>;

    closed spec fn view(&self) -> Map<Seq<char>, Seq<char>> {
        pairs_map(self.pairs@.map_values(|p: (String, String)| pair_view(p)))
    }
}

/// The views of a list of strings.
pub open spec fn strings_view(items: Seq<String>) -> Seq<Seq<char>> {
    items.map_values(|s: String| s@)
}

impl HotkeyMap {
    /// Reads hotkey settings; later settings of a function win, settings without `,` are skipped.
    pub fn from_settings(items: &Vec<String>) -> (r: HotkeyMap)
        ensures
            r@ == spec_hotkey_map(strings_view(items@)),
    {
        let mut pairs: Vec<(String, String)> = Vec::new();
        let n: usize = items.len();
        let mut i: usize = 0;
        while i < n
            invariant
                i <= n,
                n == items@.len(),
                pairs_map(pairs@.map_values(|p: (String, String)| pair_view(p)))
                    == spec_hotkey_map(strings_view(items@.take(i as int))),
            decreases n - i,
        {
            let ghost before = pairs@;
            let parsed = parse_hotkey(items[i].as_str());
            proof {
                let s = strings_view(items@.take(i as int + 1));
                assert(s.drop_last() =~= strings_view(items@.take(i as int)));
                assert(s.last() == items@[i as int]@);
            }
            match parsed {
                Some(p) => {
                    pairs.push(p);
                    proof {
                        let v = pairs@.map_values(|p: (String, String)| pair_view(p));
                        assert(v.drop_last() =~= before.map_values(
                            |p: (String, String)| pair_view(p),
                        ));
                    }
                },
                None => {},
            }
            i = i + 1;
        }
        assert(items@.take(n as int) =~= items@);
        HotkeyMap { pairs }
    }

    /// The hotkeys of settings that may be absent: none are bound then.
    pub fn from_optional_settings(items: &Option<Vec<String>>) -> (r: HotkeyMap)
        ensures
            r@ == (match items {
                Some(v) => spec_hotkey_map(strings_view(v@)),
                None => Map::empty(),
            }),
    {
        match items {
            Some(v) => HotkeyMap::from_settings(v),
            None => HotkeyMap { pairs: Vec::new() },
        }
    }

    /// The key bound to `function`, if any.
    pub fn get(&self, function: &str) -> (r: Option<String>)
        ensures
            r matches Some(k) ==> self@.contains_key(function@) && k@ == self@[function@],
            r is None ==> !self@.contains_key(function@),
    {
        let n: usize = self.pairs.len();
        let ghost v = self.pairs@.map_values(|p: (String, String)| pair_view(p));
        let mut found: Option<String> = None;
        let mut i: usize = 0;
        while i < n
            invariant
                i <= n,
                n == self.pairs@.len(),
                v == self.pairs@.map_values(|p: (String, String)| pair_view(p)),
                found matches Some(k) ==> pairs_map(v.take(i as int)).contains_key(function@)
                    && k@ == pairs_map(v.take(i as int))[function@],
                found is None ==> !pairs_map(v.take(i as int)).contains_key(function@),
            decreases n - i,
        {
            proof {
                assert(v.take(i as int + 1).drop_last() =~= v.take(i as int));
                assert(v.take(i as int + 1).last() == pair_view(self.pairs@[i as int]));
            }
            if crate::text::str_eq(self.pairs[i].0.as_str(), function) {
                found = Some(self.pairs[i].1.clone());
            }
            i = i + 1;
        }
        assert(v.take(n as int) =~= v);
        found
    }
}

/// A later setting of a function overrides the earlier ones, and a setting without `,`
/// changes nothing.
pub proof fn lemma_later_setting_wins(items: Seq<Seq<char>>, setting: Seq<char>)
    ensures
        spec_parse_hotkey(setting) matches Some((f, k)) ==> spec_hotkey_map(items.push(setting))
            == spec_hotkey_map(items).insert(f, k),
        spec_parse_hotkey(setting) is None ==> spec_hotkey_map(items.push(setting))
            == spec_hotkey_map(items),
{
    assert(items.push(setting).drop_last() =~= items);
}

proof fn lemma_comma_index_facts(s: Seq<char>)
    ensures
        0 <= comma_index(s) <= s.len(),
        forall|j: int| 0 <= j < comma_index(s) ==> s[j] != ',',
        comma_index(s) < s.len() ==> s[comma_index(s)] == ',',
    decreases s.len(),
{
    if s.len() > 0 && s[0] != ',' {
        lemma_comma_index_facts(s.drop_first());
        assert forall|j: int| 0 <= j < comma_index(s) implies s[j] != ',' by {
            if j > 0 {
                assert(s[j] == s.drop_first()[j - 1]);
            }
        }
    }
}

/// A setting without `,` binds nothing. A setting with one binds the text before its first
/// `,` to the text between that `,` and the next one (or the end): neither holds a `,`, the
/// setting begins with them joined by `,`, and what follows is nothing or another `,`.
pub proof fn lemma_parse_hotkey_fields(s: Seq<char>)
    ensures
        spec_parse_hotkey(s) is None <==> (forall|j: int| 0 <= j < s.len() ==> s[j] != ','),
        spec_parse_hotkey(s) matches Some((f, k)) ==> {
            &&& forall|j: int| 0 <= j < f.len() ==> f[j] != ','
            &&& forall|j: int| 0 <= j < k.len() ==> k[j] != ','
            &&& f.len() + 1 + k.len() <= s.len()
            &&& s.subrange(0, (f.len() + 1 + k.len()) as int) == f + seq![','] + k
            &&& (s.len() == f.len() + 1 + k.len() || s[(f.len() + 1 + k.len()) as int] == ',')
        },
{
    lemma_comma_index_facts(s);
    let i = comma_index(s);
    if i < s.len() {
        let rest = s.subrange(i + 1, s.len() as int);
        lemma_comma_index_facts(rest);
        let j = comma_index(rest);
        let f = s.subrange(0, i);
        let k = rest.subrange(0, j);
        assert forall|x: int| 0 <= x < k.len() implies k[x] != ',' by {
            assert(k[x] == rest[x]);
        }
        assert(s.subrange(0, (f.len() + 1 + k.len()) as int) =~= f + seq![','] + k);
        if i + 1 + j < s.len() {
            assert(s[i + 1 + j] == rest[j]);
        }
    } else {
        assert forall|x: int| 0 <= x < s.len() implies s[x] != ',' by {}
    }
}

} // verus!
