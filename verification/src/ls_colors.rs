//! The colours of file names, read from an `LS_COLORS` specification.

use vstd::prelude::*;
use vstd::string::*;

use crate::text::{opt_str_view, str_eq, string_push};
use crate::theme::{opt_as_str, opt_string_view};

verus! {

/// The first position of `c` in `s`, if any.
pub open spec fn first_index_of(s: Seq<char>, c: char) -> Option<int>
    decreases s.len(),
{
    if s.len() == 0 {
        None
    } else if s[0] == c {
        Some(0)
    } else {
        match first_index_of(s.drop_first(), c) {
            Some(i) => Some(i + 1),
            None => None,
        }
    }
}

/// The last position of `c` in `s`, if any.
pub open spec fn last_index_of(s: Seq<char>, c: char) -> Option<int>
    decreases s.len(),
{
    if s.len() == 0 {
        None
    } else if s.last() == c {
        Some(s.len() - 1)
    } else {
        last_index_of(s.drop_last(), c)
    }
}

pub proof fn lemma_first_index_range(s: Seq<char>, c: char)
    ensures
        first_index_of(s, c) matches Some(i) ==> 0 <= i < s.len() && s[i] == c,
    decreases s.len(),
{
    if s.len() > 0 && s[0] != c {
        lemma_first_index_range(s.drop_first(), c);
    }
}

/// Whether `s` starts with `*.`.
pub open spec fn starts_with_star_dot(s: Seq<char>) -> bool {
    s.len() >= 2 && s[0] == '*' && s[1] == '.'
}

/// `s` with every leading `*.` removed.
pub open spec fn trim_star_dot(s: Seq<char>) -> Seq<char>
    decreases s.len(),
{
    if starts_with_star_dot(s) {
        trim_star_dot(s.skip(2))
    } else {
        s
    }
}

/// The abstract colour settings: a style per file kind, and a style per
/// file-name extension.
pub struct LsColorsView {
    pub file: Option<Seq<char>>,
    pub dir: Option<Seq<char>>,
    pub symlink: Option<Seq<char>>,
    pub executable: Option<Seq<char>>,
    pub block_device: Option<Seq<char>>,
    pub char_device: Option<Seq<char>>,
    pub fifo: Option<Seq<char>>,
    pub socket: Option<Seq<char>>,
    pub setuid: Option<Seq<char>>,
    pub setgid: Option<Seq<char>>,
    pub multiple_hard_links: Option<Seq<char>>,
    pub dir_sticky_and_other_writable: Option<Seq<char>>,
    pub dir_other_writable: Option<Seq<char>>,
    pub dir_sticky: Option<Seq<char>>,
    pub extension: Map<Seq<char>, Seq<char>>,
}

/// The effect of one `key=value` entry: a two-letter key sets the style of
/// a file kind, a key starting with `*.` sets the style of the extension
/// that follows it, and any other key is ignored.
pub open spec fn apply_entry(m: LsColorsView, key: Seq<char>, value: Seq<char>) -> LsColorsView {
    if key == "fi"@ {
        LsColorsView { file: Some(value), ..m }
    } else if key == "di"@ {
        LsColorsView { dir: Some(value), ..m }
    } else if key == "ln"@ {
        LsColorsView { symlink: Some(value), ..m }
    } else if key == "ex"@ {
        LsColorsView { executable: Some(value), ..m }
    } else if key == "bd"@ {
        LsColorsView { block_device: Some(value), ..m }
    } else if key == "cd"@ {
        LsColorsView { char_device: Some(value), ..m }
    } else if key == "pi"@ {
        LsColorsView { fifo: Some(value), ..m }
    } else if key == "so"@ {
        LsColorsView { socket: Some(value), ..m }
    } else if key == "su"@ {
        LsColorsView { setuid: Some(value), ..m }
    } else if key == "sg"@ {
        LsColorsView { setgid: Some(value), ..m }
    } else if key == "mh"@ {
        LsColorsView { multiple_hard_links: Some(value), ..m }
    } else if key == "tw"@ {
        LsColorsView { dir_sticky_and_other_writable: Some(value), ..m }
    } else if key == "ow"@ {
        LsColorsView { dir_other_writable: Some(value), ..m }
    } else if key == "st"@ {
        LsColorsView { dir_sticky: Some(value), ..m }
    } else if starts_with_star_dot(key) {
        LsColorsView { extension: m.extension.insert(trim_star_dot(key), value), ..m }
    } else {
        m
    }
}

/// When `LS_COLORS` gives the same key twice, the later value is the one
/// used: applying a second entry for a key undoes the first.
pub proof fn law_later_entry_wins(m: LsColorsView, key: Seq<char>, first: Seq<char>, second: Seq<char>)
    ensures
        apply_entry(apply_entry(m, key, first), key, second) == apply_entry(m, key, second),
{
    if starts_with_star_dot(key) {
        assert(m.extension.insert(trim_star_dot(key), first).insert(trim_star_dot(key), second)
            =~= m.extension.insert(trim_star_dot(key), second));
    }
}

/// The effect of one `:`-separated segment: split at its first `=` into
/// key and value; a segment without `=` is ignored.
pub open spec fn apply_segment(m: LsColorsView, segment: Seq<char>) -> LsColorsView {
    match first_index_of(segment, '=') {
        Some(j) => apply_entry(m, segment.take(j), segment.skip(j + 1)),
        None => m,
    }
}

/// The settings after reading an `LS_COLORS` specification: its
/// `:`-separated segments applied from left to right.
pub open spec fn parse_spec(m: LsColorsView, s: Seq<char>) -> LsColorsView
    decreases s.len(),
{
    match first_index_of(s, ':') {
        Some(i) => {
            proof {
                lemma_first_index_range(s, ':');
            }
            parse_spec(apply_segment(m, s.take(i)), s.skip(i + 1))
        },
        None => apply_segment(m, s),
    }
}

/// The style for an extension: its own style when one is set, else the
/// style of regular files.
pub open spec fn extension_style_spec(m: LsColorsView, extension: Seq<char>) -> Option<Seq<char>> {
    if m.extension.dom().contains(extension) {
        Some(m.extension[extension])
    } else {
        m.file
    }
}

/// The extension of a file name: what follows its last `.`, unless nothing
/// or a path separator precedes that dot (hidden files such as `.gitignore`
/// have no extension).
pub open spec fn file_extension_spec(name: Seq<char>) -> Seq<char> {
    match last_index_of(name, '.') {
        Some(i) => if i == 0 || name[i - 1] == '/' {
            Seq::empty()
        } else {
            name.skip(i + 1)
        },
        None => Seq::empty(),
    }
}

/// The map given by a list of distinct keys and their values.
pub open spec fn entries_map(s: Seq<(Seq<char>, Seq<char>)>) -> Map<Seq<char>, Seq<char>>
    decreases s.len(),
{
    if s.len() == 0 {
        Map::empty()
    } else {
        entries_map(s.drop_last()).insert(s.last().0, s.last().1)
    }
}

/// Styles per file-name extension, each extension at most once.
pub struct ExtensionStyles {
    entries: Vec<(String, String)>,
}

spec fn entries_view(v: Seq<(String, String)>) -> Seq<(Seq<char>, Seq<char>)> {
    v.map_values(|e: (String, String)| (e.0@, e.1@))
}

spec fn keys_distinct(s: Seq<(Seq<char>, Seq<char>)>) -> bool {
    forall|i: int, j: int| 0 <= i < j < s.len() ==> s[i].0 != s[j].0
}

proof fn lemma_entries_map_lookup(s: Seq<(Seq<char>, Seq<char>)>, j: int)
    requires
        keys_distinct(s),
        0 <= j < s.len(),
    ensures
        entries_map(s).dom().contains(s[j].0),
        entries_map(s)[s[j].0] == s[j].1,
    decreases s.len(),
{
    if j < s.len() - 1 {
        lemma_entries_map_lookup(s.drop_last(), j);
    }
}

proof fn lemma_entries_map_absent(s: Seq<(Seq<char>, Seq<char>)>, k: Seq<char>)
    requires
        forall|i: int| 0 <= i < s.len() ==> s[i].0 != k,
    ensures
        !entries_map(s).dom().contains(k),
    decreases s.len(),
{
    if s.len() > 0 {
        lemma_entries_map_absent(s.drop_last(), k);
    }
}

proof fn lemma_entries_map_update(s: Seq<(Seq<char>, Seq<char>)>, j: int, v: Seq<char>)
    requires
        keys_distinct(s),
        0 <= j < s.len(),
    ensures
        entries_map(s.update(j, (s[j].0, v))) == entries_map(s).insert(s[j].0, v),
    decreases s.len(),
{
    let t = s.update(j, (s[j].0, v));
    if j == s.len() - 1 {
        assert(t.drop_last() =~= s.drop_last());
        assert(entries_map(t) =~= entries_map(s).insert(s[j].0, v));
    } else {
        lemma_entries_map_update(s.drop_last(), j, v);
        assert(t.drop_last() =~= s.drop_last().update(j, (s[j].0, v)));
        assert(entries_map(t) =~= entries_map(s).insert(s[j].0, v));
    }
}

impl View for ExtensionStyles {
    type V = Map<Seq<char>, Seq<char>>;

    closed spec fn view(&self) -> Map<Seq<char>, Seq<char>> {
        entries_map(entries_view(self.entries@))
    }
}

impl ExtensionStyles {
    #[verifier::type_invariant]
    closed spec fn distinct(&self) -> bool {
        keys_distinct(entries_view(self.entries@))
    }

    /// No extension styles.
    pub fn new() -> (r: Self)
        ensures
            r@ == Map::<Seq<char>, Seq<char>>::empty(),
    {
        let r = ExtensionStyles { entries: Vec::new() };
        proof {
            assert(entries_view(r.entries@) =~= Seq::empty());
        }
        r
    }

    /// Whether no extension has a style.
    pub fn is_empty(&self) -> (r: bool)
        ensures
            r == (self@ == Map::<Seq<char>, Seq<char>>::empty()),
    {
        proof {
            use_type_invariant(self);
        }
        let r = self.entries.len() == 0;
        proof {
            let s = entries_view(self.entries@);
            if r {
                assert(s =~= Seq::empty());
            } else {
                lemma_entries_map_lookup(s, 0);
                assert(self@.dom().contains(s[0].0));
            }
        }
        r
    }

    fn find(&self, key: &str) -> (r: Option<usize>)
        ensures
            r matches Some(j) ==> j < self.entries@.len() && self.entries@[j as int].0@ == key@,
            r is None ==> forall|i: int| 0 <= i < self.entries@.len() ==> #[trigger] self.entries@[i].0@ != key@,
    {
        let mut i: usize = 0;
        while i < self.entries.len()
            invariant
                i <= self.entries@.len(),
                forall|k: int| 0 <= k < i ==> #[trigger] self.entries@[k].0@ != key@,
            decreases self.entries@.len() - i,
        {
            if str_eq(self.entries[i].0.as_str(), key) {
                return Some(i);
            }
            i = i + 1;
        }
        None
    }

    /// The style of an extension, if it has one.
    pub fn get(&self, key: &str) -> (r: Option<&str>)
        ensures
            opt_str_view(r) == (if self@.dom().contains(key@) {
                Some(self@[key@])
            } else {
                None
            }),
    {
        proof {
            use_type_invariant(self);
        }
        match self.find(key) {
            Some(j) => {
                proof {
                    lemma_entries_map_lookup(entries_view(self.entries@), j as int);
                }
                Some(self.entries[j].1.as_str())
            },
            None => {
                proof {
                    lemma_entries_map_absent(entries_view(self.entries@), key@);
                }
                None
            },
        }
    }

    /// Sets the style of an extension, replacing any earlier one.
    pub fn insert(&mut self, key: String, value: String)
        ensures
            final(self)@ == old(self)@.insert(key@, value@),
    {
        proof {
            use_type_invariant(&*self);
        }
        let ghost s = entries_view(self.entries@);
        match self.find(key.as_str()) {
            Some(j) => {
                let mut entries = Vec::new();
                std::mem::swap(&mut entries, &mut self.entries);
                let ghost kv = key@;
                entries.set(j, (key, value));
                proof {
                    assert(entries_view(entries@) =~= s.update(j as int, (s[j as int].0, value@)));
                    lemma_entries_map_update(s, j as int, value@);
                    assert(keys_distinct(entries_view(entries@)));
                }
                self.entries = entries;
            },
            None => {
                let mut entries = Vec::new();
                std::mem::swap(&mut entries, &mut self.entries);
                let ghost kv = key@;
                entries.push((key, value));
                proof {
                    assert(entries_view(entries@) =~= s.push((kv, value@)));
                    assert(entries_view(entries@).drop_last() =~= s);
                    assert(keys_distinct(entries_view(entries@)));
                }
                self.entries = entries;
            },
        }
    }
}

/// The colour settings for file names.
pub struct LsColors {
    pub file: Option<String>,
    pub dir: Option<String>,
    pub symlink: Option<String>,
    pub executable: Option<String>,
    pub block_device: Option<String>,
    pub char_device: Option<String>,
    pub fifo: Option<String>,
    pub socket: Option<String>,
    pub setuid: Option<String>,
    pub setgid: Option<String>,
    pub multiple_hard_links: Option<String>,
    pub dir_sticky_and_other_writable: Option<String>,
    pub dir_other_writable: Option<String>,
    pub dir_sticky: Option<String>,
    pub extension: ExtensionStyles,
}

impl View for LsColors {
    type V = LsColorsView;

    open spec fn view(&self) -> LsColorsView {
        LsColorsView {
            file: opt_string_view(self.file),
            dir: opt_string_view(self.dir),
            symlink: opt_string_view(self.symlink),
            executable: opt_string_view(self.executable),
            block_device: opt_string_view(self.block_device),
            char_device: opt_string_view(self.char_device),
            fifo: opt_string_view(self.fifo),
            socket: opt_string_view(self.socket),
            setuid: opt_string_view(self.setuid),
            setgid: opt_string_view(self.setgid),
            multiple_hard_links: opt_string_view(self.multiple_hard_links),
            dir_sticky_and_other_writable: opt_string_view(self.dir_sticky_and_other_writable),
            dir_other_writable: opt_string_view(self.dir_other_writable),
            dir_sticky: opt_string_view(self.dir_sticky),
            extension: self.extension@,
        }
    }
}

/// The characters of a string slice.
#[verifier::external_body]
pub(crate) fn str_chars(s: &str) -> (r: Vec<char>)
    ensures
        r@ == s@,
{
    s.chars().collect()
}

/// A fresh string holding `chars[a..b]`.
pub fn string_of_chars(chars: &Vec<char>, a: usize, b: usize) -> (r: String)
    requires
        a <= b <= chars@.len(),
    ensures
        r@ == chars@.subrange(a as int, b as int),
{
    let mut s = String::new();
    let mut i = a;
    while i < b
        invariant
            a <= i <= b,
            b <= chars@.len(),
            s@ == chars@.subrange(a as int, i as int),
        decreases b - i,
    {
        string_push(&mut s, chars[i]);
        i = i + 1;
        proof {
            assert(s@ =~= chars@.subrange(a as int, i as int));
        }
    }
    s
}

proof fn lemma_first_index_found(s: Seq<char>, c: char, j: int)
    requires
        0 <= j < s.len(),
        s[j] == c,
        forall|k: int| 0 <= k < j ==> s[k] != c,
    ensures
        first_index_of(s, c) == Some(j),
    decreases s.len(),
{
    if j > 0 {
        lemma_first_index_found(s.drop_first(), c, j - 1);
    }
}

proof fn lemma_first_index_absent(s: Seq<char>, c: char)
    requires
        forall|k: int| 0 <= k < s.len() ==> s[k] != c,
    ensures
        first_index_of(s, c) is None,
    decreases s.len(),
{
    if s.len() > 0 {
        lemma_first_index_absent(s.drop_first(), c);
    }
}

proof fn lemma_last_index_found(s: Seq<char>, c: char, j: int)
    requires
        0 <= j < s.len(),
        s[j] == c,
        forall|k: int| j < k < s.len() ==> s[k] != c,
    ensures
        last_index_of(s, c) == Some(j),
    decreases s.len(),
{
    if j < s.len() - 1 {
        lemma_last_index_found(s.drop_last(), c, j);
    }
}

proof fn lemma_last_index_absent(s: Seq<char>, c: char)
    requires
        forall|k: int| 0 <= k < s.len() ==> s[k] != c,
    ensures
        last_index_of(s, c) is None,
    decreases s.len(),
{
    if s.len() > 0 {
        lemma_last_index_absent(s.drop_last(), c);
    }
}

/// The position after every leading `*.` of `chars[a..b]`.
fn skip_star_dots(chars: &Vec<char>, a: usize, b: usize) -> (r: usize)
    requires
        a <= b <= chars@.len(),
    ensures
        a <= r <= b,
        trim_star_dot(chars@.subrange(a as int, b as int)) == chars@.subrange(r as int, b as int),
    decreases b - a,
{
    if b - a >= 2 && chars[a] == '*' && chars[a + 1] == '.' {
        proof {
            assert(chars@.subrange(a as int, b as int).skip(2) =~= chars@.subrange(a + 2, b as int));
        }
        skip_star_dots(chars, a + 2, b)
    } else {
        a
    }
}

impl LsColors {
    /// No colours at all.
    pub fn new() -> (r: Self)
        ensures
            r.file is None,
            r.dir is None,
            r.symlink is None,
            r.executable is None,
            r.block_device is None,
            r.char_device is None,
            r.fifo is None,
            r.socket is None,
            r.setuid is None,
            r.setgid is None,
            r.multiple_hard_links is None,
            r.dir_sticky_and_other_writable is None,
            r.dir_other_writable is None,
            r.dir_sticky is None,
            r.extension@ == Map::<Seq<char>, Seq<char>>::empty(),
    {
        LsColors {
            file: None,
            dir: None,
            symlink: None,
            executable: None,
            block_device: None,
            char_device: None,
            fifo: None,
            socket: None,
            setuid: None,
            setgid: None,
            multiple_hard_links: None,
            dir_sticky_and_other_writable: None,
            dir_other_writable: None,
            dir_sticky: None,
            extension: ExtensionStyles::new(),
        }
    }

    /// The colours of an `LS_COLORS` value when one is given, else those of
    /// the default specification.
    pub fn with_colors(ls_colors_env: Option<&str>) -> (r: Self)
        ensures
            r@ == parse_spec(
                LsColors::new_spec(),
                match ls_colors_env {
                    Some(s) => s@,
                    None => DEFAULT_LS_COLORS@,
                },
            ),
    {
        let mut ls_colors = LsColors::new();
        match ls_colors_env {
            Some(s) => ls_colors.parse(s),
            None => ls_colors.parse(DEFAULT_LS_COLORS),
        }
        ls_colors
    }

    /// The settings with no colours.
    pub open spec fn new_spec() -> LsColorsView {
        LsColorsView {
            file: None,
            dir: None,
            symlink: None,
            executable: None,
            block_device: None,
            char_device: None,
            fifo: None,
            socket: None,
            setuid: None,
            setgid: None,
            multiple_hard_links: None,
            dir_sticky_and_other_writable: None,
            dir_other_writable: None,
            dir_sticky: None,
            extension: Map::empty(),
        }
    }

    /// Applies an `LS_COLORS` specification on top of the current settings.
    pub fn parse(&mut self, ls_colors_string: &str)
        ensures
            final(self)@ == parse_spec(old(self)@, ls_colors_string@),
    {
        let chars = str_chars(ls_colors_string);
        let n = chars.len();
        let mut start: usize = 0;
        proof {
            assert(chars@.skip(0) =~= chars@);
        }
        loop
            invariant_except_break
                parse_spec(old(self)@, ls_colors_string@) == parse_spec(self@, chars@.skip(start as int)),
            invariant
                chars@ == ls_colors_string@,
                n == chars@.len(),
                start <= n,
            ensures
                parse_spec(old(self)@, ls_colors_string@) == self@,
            decreases n - start,
        {
            let mut i = start;
            while i < n && chars[i] != ':'
                invariant
                    start <= i <= n,
                    n == chars@.len(),
                    forall|k: int| start <= k < i ==> chars@[k] != ':',
                decreases n - i,
            {
                i = i + 1;
            }
            let ghost rest = chars@.skip(start as int);
            let ghost m = self@;
            self.apply_segment(&chars, start, i);
            if i == n {
                proof {
                    lemma_first_index_absent(rest, ':');
                    assert(chars@.subrange(start as int, i as int) =~= rest);
                }
                break;
            }
            proof {
                lemma_first_index_found(rest, ':', i - start);
                assert(rest.take(i - start) =~= chars@.subrange(start as int, i as int));
                assert(rest.skip(i - start + 1) =~= chars@.skip(i + 1));
            }
            start = i + 1;
        }
    }

    fn apply_segment(&mut self, chars: &Vec<char>, a: usize, b: usize)
        requires
            a <= b <= chars@.len(),
        ensures
            final(self)@ == apply_segment(old(self)@, chars@.subrange(a as int, b as int)),
    {
        let ghost seg = chars@.subrange(a as int, b as int);
        let mut j = a;
        while j < b && chars[j] != '='
            invariant
                a <= j <= b,
                b <= chars@.len(),
                forall|k: int| a <= k < j ==> chars@[k] != '=',
            decreases b - j,
        {
            j = j + 1;
        }
        if j == b {
            proof {
                lemma_first_index_absent(seg, '=');
            }
            return;
        }
        proof {
            lemma_first_index_found(seg, '=', j - a);
            assert(seg.take(j - a) =~= chars@.subrange(a as int, j as int));
            assert(seg.skip(j - a + 1) =~= chars@.subrange(j + 1, b as int));
        }
        let key = string_of_chars(chars, a, j);
        let value = string_of_chars(chars, j + 1, b);
        let k = key.as_str();
        if str_eq(k, "fi") {
            self.file = Some(value);
        } else if str_eq(k, "di") {
            self.dir = Some(value);
        } else if str_eq(k, "ln") {
            self.symlink = Some(value);
        } else if str_eq(k, "ex") {
            self.executable = Some(value);
        } else if str_eq(k, "bd") {
            self.block_device = Some(value);
        } else if str_eq(k, "cd") {
            self.char_device = Some(value);
        } else if str_eq(k, "pi") {
            self.fifo = Some(value);
        } else if str_eq(k, "so") {
            self.socket = Some(value);
        } else if str_eq(k, "su") {
            self.setuid = Some(value);
        } else if str_eq(k, "sg") {
            self.setgid = Some(value);
        } else if str_eq(k, "mh") {
            self.multiple_hard_links = Some(value);
        } else if str_eq(k, "tw") {
            self.dir_sticky_and_other_writable = Some(value);
        } else if str_eq(k, "ow") {
            self.dir_other_writable = Some(value);
        } else if str_eq(k, "st") {
            self.dir_sticky = Some(value);
        } else if j - a >= 2 && chars[a] == '*' && chars[a + 1] == '.' {
            let t = skip_star_dots(chars, a, j);
            let ext = string_of_chars(chars, t, j);
            self.extension.insert(ext, value);
        }
    }

    /// The style for regular files.
    pub fn file_style(&self) -> (r: Option<&str>)
        ensures
            opt_str_view(r) == self@.file,
    {
        opt_as_str(&self.file)
    }

    /// The style for directories.
    pub fn dir_style(&self) -> (r: Option<&str>)
        ensures
            opt_str_view(r) == self@.dir,
    {
        opt_as_str(&self.dir)
    }

    /// The style for symbolic links.
    pub fn symlink_style(&self) -> (r: Option<&str>)
        ensures
            opt_str_view(r) == self@.symlink,
    {
        opt_as_str(&self.symlink)
    }

    /// The style for executables.
    pub fn exec_style(&self) -> (r: Option<&str>)
        ensures
            opt_str_view(r) == self@.executable,
    {
        opt_as_str(&self.executable)
    }

    /// The style for block devices.
    pub fn block_device_style(&self) -> (r: Option<&str>)
        ensures
            opt_str_view(r) == self@.block_device,
    {
        opt_as_str(&self.block_device)
    }

    /// The style for char devices.
    pub fn char_device_style(&self) -> (r: Option<&str>)
        ensures
            opt_str_view(r) == self@.char_device,
    {
        opt_as_str(&self.char_device)
    }

    /// The style for fifos.
    pub fn fifo_style(&self) -> (r: Option<&str>)
        ensures
            opt_str_view(r) == self@.fifo,
    {
        opt_as_str(&self.fifo)
    }

    /// The style for sockets.
    pub fn socket_style(&self) -> (r: Option<&str>)
        ensures
            opt_str_view(r) == self@.socket,
    {
        opt_as_str(&self.socket)
    }

    /// The style for regular files with the setuid permission.
    pub fn setuid_style(&self) -> (r: Option<&str>)
        ensures
            opt_str_view(r) == self@.setuid,
    {
        opt_as_str(&self.setuid)
    }

    /// The style for regular files with the setgid permission.
    pub fn setgid_style(&self) -> (r: Option<&str>)
        ensures
            opt_str_view(r) == self@.setgid,
    {
        opt_as_str(&self.setgid)
    }

    /// The style for files with multiple hard links.
    pub fn multiple_hard_links_style(&self) -> (r: Option<&str>)
        ensures
            opt_str_view(r) == self@.multiple_hard_links,
    {
        opt_as_str(&self.multiple_hard_links)
    }

    /// The style for directories with the sticky and other-writable permissions.
    pub fn dir_sticky_and_other_writable_style(&self) -> (r: Option<&str>)
        ensures
            opt_str_view(r) == self@.dir_sticky_and_other_writable,
    {
        opt_as_str(&self.dir_sticky_and_other_writable)
    }

    /// The style for directories with the other-writable permission.
    pub fn dir_other_writable_style(&self) -> (r: Option<&str>)
        ensures
            opt_str_view(r) == self@.dir_other_writable,
    {
        opt_as_str(&self.dir_other_writable)
    }

    /// The style for directories with the sticky permission.
    pub fn dir_sticky_style(&self) -> (r: Option<&str>)
        ensures
            opt_str_view(r) == self@.dir_sticky,
    {
        opt_as_str(&self.dir_sticky)
    }

    /// The style for a file with the given extension: the extension's own
    /// style when it has one, else the style of regular files.
    pub fn extension_style(&self, extension: &str) -> (r: Option<&str>)
        ensures
            opt_str_view(r) == extension_style_spec(self@, extension@),
    {
        if self.extension.is_empty() {
            self.file_style()
        } else {
            match self.extension.get(extension) {
                Some(style) => Some(style),
                None => self.file_style(),
            }
        }
    }
}

impl Default for LsColors {
    fn default() -> (r: Self)
        ensures
            r@ == LsColors::new_spec(),
    {
        LsColors::new()
    }
}

/// The extension of a file name, empty when it has none.
pub fn get_file_extension(file_name: &str) -> (r: String)
    ensures
        r@ == file_extension_spec(file_name@),
{
    let chars = str_chars(file_name);
    let n = chars.len();
    let mut i = n;
    while i > 0 && chars[i - 1] != '.'
        invariant
            i <= n,
            n == chars@.len(),
            forall|k: int| i <= k < n ==> chars@[k] != '.',
        decreases i,
    {
        i = i - 1;
    }
    if i == 0 {
        proof {
            lemma_last_index_absent(file_name@, '.');
        }
        return String::new();
    }
    let dot = i - 1;
    proof {
        lemma_last_index_found(file_name@, '.', dot as int);
    }
    if dot == 0 || chars[dot - 1] == '/' {
        String::new()
    } else {
        let r = string_of_chars(&chars, dot + 1, n);
        proof {
            assert(r@ =~= file_name@.skip(dot + 1));
        }
        r
    }
}

/// The colours used when `LS_COLORS` is not set.
pub const DEFAULT_LS_COLORS: &'static str = "rs=0:di=01;34:ln=01;36:mh=00:pi=40;33:so=01;35:do=01;35:bd=40;33;01:cd=40;33;01:or=40;31;01:mi=00:su=37;41:sg=30;43:ca=30;41:tw=30;42:ow=34;42:st=37;44:ex=01;32:*.tar=01;31:*.tgz=01;31:*.arc=01;31:*.arj=01;31:*.taz=01;31:*.lha=01;31:*.lz4=01;31:*.lzh=01;31:*.lzma=01;31:*.tlz=01;31:*.txz=01;31:*.tzo=01;31:*.t7z=01;31:*.zip=01;31:*.z=01;31:*.dz=01;31:*.gz=01;31:*.lrz=01;31:*.lz=01;31:*.lzo=01;31:*.xz=01;31:*.zst=01;31:*.tzst=01;31:*.bz2=01;31:*.bz=01;31:*.tbz=01;31:*.tbz2=01;31:*.tz=01;31:*.deb=01;31:*.rpm=01;31:*.jar=01;31:*.war=01;31:*.ear=01;31:*.sar=01;31:*.rar=01;31:*.alz=01;31:*.ace=01;31:*.zoo=01;31:*.cpio=01;31:*.7z=01;31:*.rz=01;31:*.cab=01;31:*.wim=01;31:*.swm=01;31:*.dwm=01;31:*.esd=01;31:*.jpg=01;35:*.jpeg=01;35:*.mjpg=01;35:*.mjpeg=01;35:*.gif=01;35:*.bmp=01;35:*.pbm=01;35:*.pgm=01;35:*.ppm=01;35:*.tga=01;35:*.xbm=01;35:*.xpm=01;35:*.tif=01;35:*.tiff=01;35:*.png=01;35:*.svg=01;35:*.svgz=01;35:*.mng=01;35:*.pcx=01;35:*.mov=01;35:*.mpg=01;35:*.mpeg=01;35:*.m2v=01;35:*.mkv=01;35:*.webm=01;35:*.webp=01;35:*.ogm=01;35:*.mp4=01;35:*.m4v=01;35:*.mp4v=01;35:*.vob=01;35:*.qt=01;35:*.nuv=01;35:*.wmv=01;35:*.asf=01;35:*.rm=01;35:*.rmvb=01;35:*.flc=01;35:*.avi=01;35:*.fli=01;35:*.flv=01;35:*.gl=01;35:*.dl=01;35:*.xcf=01;35:*.xwd=01;35:*.yuv=01;35:*.cgm=01;35:*.emf=01;35:*.ogv=01;35:*.ogx=01;35:*.aac=00;36:*.au=00;36:*.flac=00;36:*.m4a=00;36:*.mid=00;36:*.midi=00;36:*.mka=00;36:*.mp3=00;36:*.mpc=00;36:*.ogg=00;36:*.ra=00;36:*.wav=00;36:*.oga=00;36:*.opus=00;36:*.spx=00;36:*.xspf=00;36:";

} // verus!
