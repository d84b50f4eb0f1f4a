//! The storage section of the edit form: the VM's drives, the disks added,
//! the drives marked for removal, and the new sizes asked for drives.
//! Sizes are read with the `regex` crate.
use vstd::prelude::*;
use vstd::string::*;

use crate::arch::Arch;
use crate::key::{Key, is_down, is_up};
use crate::edit::{edit_field, typed};
use crate::network::port_forwarding::opt_view;
use crate::selection::{row_above, row_below, select_next, select_prev};
use crate::storage::{
    Disk,
    DiskBuilder,
    Drive,
    disk_form_after,
    disk_key_to_field,
    size_field_error,
};
use crate::text::{parse_unsigned, parse_unsigned_str, str_equal};

verus! {

/// The shape a new size is typed in: an optional sign, digits, and a unit.
pub const SIZE_PATTERN: &'static str = "[\\+-]?\\d+[KMG]";

/// The same shape, with the sign, the digits and the unit as groups 1 to 3.
pub const SIZE_PARTS_PATTERN: &'static str = "([\\+-]?)(\\d+)([KMG])";

/// Whether `Regex::new` accepts the pattern `pattern`.
pub uninterp spec fn regex_compiles(pattern: Seq<char>) -> bool;

/// Whether the regular expression `pattern` matches somewhere in `text`
/// (`Regex::is_match`).
pub uninterp spec fn regex_is_match(pattern: Seq<char>, text: Seq<char>) -> bool;

/// The texts of the groups of the first match of `pattern` in `text` (group
/// 0 is the whole match; none for a group that took no part), or none when
/// there is no match (`Regex::captures`).
pub uninterp spec fn regex_captures(pattern: Seq<char>, text: Seq<char>) -> Option<
    Seq<Option<Seq<char>>>,
>;

#[verifier::external_type_specification]
#[verifier::external_body]
pub struct ExRegex(regex::Regex);

/// A compiled regular expression, with the pattern it was compiled from.
#[derive(Debug)]
pub struct Pattern {
    source: String,
    compiled: regex::Regex,
}

impl View for Pattern {
    type V = Seq<char>;

    /// The pattern the expression was compiled from.
    closed spec fn view(&self) -> Seq<char> {
        self.source@
    }
}

/// The texts of capture groups as plain values.
pub open spec fn groups_view(g: Option<Vec<Option<String>>>) -> Option<Seq<Option<Seq<char>>>> {
    match g {
        Some(v) => Some(v@.map_values(|x: Option<String>| opt_view(x))),
        None => None,
    }
}

/// Compiles `source` with `regex::Regex::new`; none when it is refused.
#[verifier::external_body]
fn compile(source: &str) -> (r: Option<Pattern>)
    ensures
        r is Some <==> regex_compiles(source@),
        r matches Some(p) ==> p@ == source@,
{
    match regex::Regex::new(source) {
        Ok(compiled) => Some(Pattern { source: source.to_string(), compiled }),
        Err(_) => None,
    }
}

/// Whether `p` matches somewhere in `text` (`regex::Regex::is_match`).
#[verifier::external_body]
fn is_match(p: &Pattern, text: &str) -> (r: bool)
    ensures
        r == regex_is_match(p@, text@),
{
    p.compiled.is_match(text)
}

/// The texts of the groups of the first match of `p` in `text`
/// (`regex::Regex::captures`, each group taken with `Match::as_str`).
#[verifier::external_body]
fn capture_groups(p: &Pattern, text: &str) -> (r: Option<Vec<Option<String>>>)
    ensures
        groups_view(r) == regex_captures(p@, text@),
{
    p.compiled.captures(text).map(|c| c.iter().map(|m| m.map(|m| m.as_str().to_string())).collect())
}

/// The two patterns new sizes are read with.
#[derive(Debug)]
pub struct SizePatterns {
    pub size: Pattern,
    pub parts: Pattern,
}

impl SizePatterns {
    /// Compiles both patterns; none when one is refused.
    pub fn new() -> (r: Option<SizePatterns>)
        ensures
            r is Some <==> (regex_compiles(SIZE_PATTERN@) && regex_compiles(SIZE_PARTS_PATTERN@)),
            r matches Some(p) ==> p.size@ == SIZE_PATTERN@ && p.parts@ == SIZE_PARTS_PATTERN@,
    {
        let size = compile(SIZE_PATTERN);
        let parts = compile(SIZE_PARTS_PATTERN);
        match (size, parts) {
            (Some(size), Some(parts)) => Some(SizePatterns { size, parts }),
            _ => None,
        }
    }
}

/// A new size below zero was asked for.
#[derive(Debug, Clone, Copy, PartialEq, Eq, Structural)]
pub enum ResizeError {
    NegativeSize,
}

/// The bytes in one unit of a size (`G`, `M`, else `K`).
pub open spec fn unit_bytes(unit: Seq<char>) -> nat {
    if unit == "G"@ {
        1073741824
    } else if unit == "M"@ {
        1048576
    } else {
        1024
    }
}

/// The groups read from a new size can be turned into a size without a
/// fault: sign, digits and unit are there, the sign is `+`, `-` or nothing,
/// the unit `G`, `M` or `K`, the digits give a number, and the sums stay in
/// range. Shrinking by `M` or `K` subtracts the other way round (the current
/// size from the asked one), which goes below zero unless both are equal.
pub open spec fn resize_ok(current: u64, g: Seq<Option<Seq<char>>>) -> bool {
    &&& g.len() >= 4
    &&& g[1] is Some && g[2] is Some && g[3] is Some
    &&& {
        let sign = g[1]->0;
        let unit = g[3]->0;
        &&& sign == "+"@ || sign == "-"@ || sign == ""@
        &&& unit == "G"@ || unit == "M"@ || unit == "K"@
        &&& parse_unsigned(g[2]->0, u64::MAX as nat) matches Some(v) && {
            let bytes = v * unit_bytes(unit);
            &&& bytes <= u64::MAX
            &&& sign == "+"@ ==> current + bytes <= u64::MAX
            &&& (sign == "-"@ && unit != "G"@ && current >= bytes) ==> current == bytes
        }
    }
}

/// The size asked for by the groups `g`, from the size `current` (bytes):
/// `+` grows it, `-` shrinks it (below zero is refused; for `M` and `K` the
/// current size is taken from the asked amount), no sign sets it.
pub open spec fn resized(current: u64, g: Seq<Option<Seq<char>>>) -> Result<nat, ResizeError> {
    let sign = g[1]->0;
    let unit = g[3]->0;
    let bytes = parse_unsigned(g[2]->0, u64::MAX as nat)->0 * unit_bytes(unit);
    if sign == "+"@ {
        Ok((current + bytes) as nat)
    } else if sign == "-"@ {
        if current < bytes {
            Err(ResizeError::NegativeSize)
        } else if unit == "G"@ {
            Ok((current - bytes) as nat)
        } else {
            Ok((bytes - current) as nat)
        }
    } else {
        Ok(bytes)
    }
}

/// The size asked for by the capture groups `groups` of a new size, from
/// the size `current` (bytes).
pub fn resize_from_groups(current: u64, groups: &Vec<Option<String>>) -> (r: Result<
    u64,
    ResizeError,
>)
    requires
        resize_ok(current, groups@.map_values(|x: Option<String>| opt_view(x))),
    ensures
        match r {
            Ok(s) => resized(current, groups@.map_values(|x: Option<String>| opt_view(x))) == Ok::<
                nat,
                ResizeError,
            >(s as nat),
            Err(e) => resized(current, groups@.map_values(|x: Option<String>| opt_view(x)))
                == Err::<nat, ResizeError>(e),
        },
{
    let ghost g = groups@.map_values(|x: Option<String>| opt_view(x));
    assert(opt_view(groups@[1]) == g[1]);
    assert(opt_view(groups@[2]) == g[2]);
    assert(opt_view(groups@[3]) == g[3]);
    let sign = groups[1].as_ref().unwrap().as_str();
    let digits = groups[2].as_ref().unwrap().as_str();
    let unit = groups[3].as_ref().unwrap().as_str();
    let value = parse_unsigned_str(digits, 18446744073709551615).unwrap();
    proof {
        reveal_strlit("G");
        reveal_strlit("M");
        reveal_strlit("K");
        reveal_strlit("+");
        reveal_strlit("-");
        reveal_strlit("");
    }
    let bytes = if str_equal(unit, "G") {
        value * 1024 * 1024 * 1024
    } else if str_equal(unit, "M") {
        value * 1024 * 1024
    } else {
        value * 1024
    };
    if str_equal(sign, "+") {
        Ok(current + bytes)
    } else if str_equal(sign, "-") {
        if current < bytes {
            Err(ResizeError::NegativeSize)
        } else if str_equal(unit, "G") {
            Ok(current - bytes)
        } else {
            Ok(bytes - current)
        }
    } else {
        Ok(bytes)
    }
}

/// Whether the groups read from a new size satisfy `resize_ok`.
fn groups_ok(current: u64, groups: &Vec<Option<String>>) -> (r: bool)
    ensures
        r == resize_ok(current, groups@.map_values(|x: Option<String>| opt_view(x))),
{
    let ghost g = groups@.map_values(|x: Option<String>| opt_view(x));
    if groups.len() < 4 {
        return false;
    }
    assert(opt_view(groups@[1]) == g[1]);
    assert(opt_view(groups@[2]) == g[2]);
    assert(opt_view(groups@[3]) == g[3]);
    if groups[1].is_none() || groups[2].is_none() || groups[3].is_none() {
        return false;
    }
    let sign = groups[1].as_ref().unwrap().as_str();
    let digits = groups[2].as_ref().unwrap().as_str();
    let unit = groups[3].as_ref().unwrap().as_str();
    proof {
        reveal_strlit("G");
        reveal_strlit("M");
        reveal_strlit("K");
        reveal_strlit("+");
        reveal_strlit("-");
        reveal_strlit("");
    }
    let plus = str_equal(sign, "+");
    let minus = str_equal(sign, "-");
    if !plus && !minus && !str_equal(sign, "") {
        return false;
    }
    let giga = str_equal(unit, "G");
    let factor: u64 = if giga {
        1073741824
    } else if str_equal(unit, "M") {
        1048576
    } else if str_equal(unit, "K") {
        1024
    } else {
        return false;
    };
    let value = match parse_unsigned_str(digits, 18446744073709551615) {
        Some(v) => v,
        None => {
            return false;
        },
    };
    let bytes = match value.checked_mul(factor) {
        Some(b) => b,
        None => {
            return false;
        },
    };
    if plus && current.checked_add(bytes).is_none() {
        return false;
    }
    if minus && !giga && current >= bytes && current != bytes {
        return false;
    }
    true
}

/// The drive whose size is changed, and the new size as typed.
#[derive(Debug)]
pub struct DriveResize {
    pub drive: Drive,
    pub new_size: String,
    pub new_size_cursor: usize,
    pub new_size_error: Option<String>,
}

/// The error the new size field shows after a check, given the error it
/// showed before: empty, or not of the shape `SIZE_PATTERN` (an accepted
/// text keeps the error it had).
pub open spec fn new_size_error(text: Seq<char>, before: Option<Seq<char>>) -> Option<Seq<char>> {
    if text.len() == 0 {
        Some("Field required"@)
    } else if !regex_is_match(SIZE_PATTERN@, text) {
        Some("Invalid input"@)
    } else {
        before
    }
}

impl DriveResize {
    /// The form for `drive`, with no size typed yet.
    pub fn new(drive: &Drive) -> (r: Self)
        ensures
            r.drive == *drive,
            r.new_size@ == Seq::<char>::empty(),
            r.new_size_cursor == 0,
            r.new_size_error is None,
    {
        DriveResize {
            drive: drive.duplicate(),
            new_size: String::new(),
            new_size_cursor: 0,
            new_size_error: None,
        }
    }

    /// Every key goes to the new size field.
    pub fn handle_key_events(&mut self, key: Key) -> (to_field: bool)
        ensures
            to_field,
            typed(
                old(self).new_size,
                old(self).new_size_cursor,
                final(self).new_size,
                final(self).new_size_cursor,
                key,
            ),
            final(self).drive == old(self).drive,
            final(self).new_size_error == old(self).new_size_error,
    {
        edit_field(&mut self.new_size, &mut self.new_size_cursor, key);
        true
    }

    /// Checks the new size with the compiled `SIZE_PATTERN` and records the
    /// error; true when it is accepted.
    pub fn validate(&mut self, size: &Pattern) -> (valid: bool)
        requires
            size@ == SIZE_PATTERN@,
        ensures
            valid == (old(self).new_size@.len() > 0 && regex_is_match(
                SIZE_PATTERN@,
                old(self).new_size@,
            )),
            opt_view(final(self).new_size_error) == new_size_error(
                old(self).new_size@,
                opt_view(old(self).new_size_error),
            ),
            final(self).drive == old(self).drive,
            final(self).new_size == old(self).new_size,
            final(self).new_size_cursor == old(self).new_size_cursor,
    {
        if self.new_size.as_str().unicode_len() == 0 {
            self.new_size_error = Some(String::from_str("Field required"));
            false
        } else if !is_match(size, self.new_size.as_str()) {
            self.new_size_error = Some(String::from_str("Invalid input"));
            false
        } else {
            true
        }
    }
}

/// The storage section: the VM's drives, the highlighted row (the VM's
/// drives first, then the added disks), the disk and resize forms while
/// they are open, the added disks, the new sizes asked for drives (by path)
/// and the paths of the drives marked for removal.
#[derive(Debug)]
pub struct StorageEdit {
    pub drive_selected: Option<usize>,
    pub new_drive: Option<DiskBuilder>,
    pub drive_resize: Option<DriveResize>,
    pub added_disks: Vec<Disk>,
    pub resized_drives: Vec<(String, String)>,
    pub deleted_drive_paths: Vec<String>,
    pub drives: Vec<Drive>,
}

/// Pairs of texts as plain values.
pub open spec fn pair_views(v: Seq<(String, String)>) -> Seq<(Seq<char>, Seq<char>)> {
    v.map_values(|p: (String, String)| (p.0@, p.1@))
}

/// Texts as plain values.
pub open spec fn text_views(v: Seq<String>) -> Seq<Seq<char>> {
    v.map_values(|s: String| s@)
}

/// `i` is the first pair of `ps` whose key is `k`.
pub open spec fn is_first_key(ps: Seq<(Seq<char>, Seq<char>)>, k: Seq<char>, i: int) -> bool {
    &&& 0 <= i < ps.len()
    &&& ps[i].0 == k
    &&& forall|j: int| 0 <= j < i ==> ps[j].0 != k
}

/// `ps` with the value of key `k` set to `v`: the first pair with that key
/// is replaced, or the pair is added at the end.
pub open spec fn with_entry(ps: Seq<(Seq<char>, Seq<char>)>, k: Seq<char>, v: Seq<char>) -> Seq<
    (Seq<char>, Seq<char>),
> {
    if exists|i: int| is_first_key(ps, k, i) {
        ps.update(choose|i: int| is_first_key(ps, k, i), (k, v))
    } else {
        ps.push((k, v))
    }
}

/// `ps` without the pairs whose key is `k`.
pub open spec fn without_key(ps: Seq<(Seq<char>, Seq<char>)>, k: Seq<char>) -> Seq<
    (Seq<char>, Seq<char>),
> {
    ps.filter(|p: (Seq<char>, Seq<char>)| p.0 != k)
}

/// `ts` without the texts equal to `t`.
pub open spec fn texts_without(ts: Seq<Seq<char>>, t: Seq<char>) -> Seq<Seq<char>> {
    ts.filter(|x: Seq<char>| x != t)
}

fn set_entry(ps: &mut Vec<(String, String)>, k: &str, v: String)
    ensures
        pair_views(final(ps)@) == with_entry(pair_views(old(ps)@), k@, v@),
{
    let ghost vs = pair_views(ps@);
    let mut i: usize = 0;
    while i < ps.len()
        invariant
            i <= ps@.len(),
            vs == pair_views(ps@),
            vs == pair_views(old(ps)@),
            forall|j: int| 0 <= j < i ==> vs[j].0 != k@,
        decreases ps@.len() - i,
    {
        if str_equal(ps[i].0.as_str(), k) {
            proof {
                assert(is_first_key(vs, k@, i as int));
                let c = choose|c: int| is_first_key(vs, k@, c);
                assert(c == i as int) by {
                    if c < i {
                        assert(vs[c].0 != k@);
                    } else if c > i {
                        assert(vs[i as int].0 != k@);
                    }
                }
            }
            let key = ps[i].0.clone();
            ps.set(i, (key, v));
            assert(pair_views(ps@) =~= vs.update(i as int, (k@, v@)));
            return ;
        }
        i = i + 1;
    }
    assert(!exists|c: int| is_first_key(vs, k@, c));
    ps.push((String::from_str(k), v));
    assert(pair_views(ps@) =~= vs.push((k@, v@)));
}

fn has_key(ps: &Vec<(String, String)>, k: &str) -> (r: bool)
    ensures
        r == exists|i: int| 0 <= i < ps@.len() && pair_views(ps@)[i].0 == k@,
{
    let mut i: usize = 0;
    while i < ps.len()
        invariant
            i <= ps@.len(),
            forall|j: int| 0 <= j < i ==> pair_views(ps@)[j].0 != k@,
        decreases ps@.len() - i,
    {
        if str_equal(ps[i].0.as_str(), k) {
            assert(pair_views(ps@)[i as int].0 == k@);
            return true;
        }
        i = i + 1;
    }
    false
}

fn has_text(ts: &Vec<String>, t: &str) -> (r: bool)
    ensures
        r == text_views(ts@).contains(t@),
{
    let ghost vs = text_views(ts@);
    let mut i: usize = 0;
    while i < ts.len()
        invariant
            i <= ts@.len(),
            vs == text_views(ts@),
            forall|j: int| 0 <= j < i ==> vs[j] != t@,
        decreases ts@.len() - i,
    {
        if str_equal(ts[i].as_str(), t) {
            assert(vs[i as int] == t@);
            return true;
        }
        i = i + 1;
    }
    false
}

fn remove_key(ps: &mut Vec<(String, String)>, k: &str)
    ensures
        pair_views(final(ps)@) == without_key(pair_views(old(ps)@), k@),
{
    let ghost vs = pair_views(ps@);
    let mut out: Vec<(String, String)> = Vec::new();
    let mut i: usize = 0;
    while i < ps.len()
        invariant
            i <= ps@.len(),
            vs == pair_views(ps@),
            pair_views(out@) == without_key(vs.take(i as int), k@),
        decreases ps@.len() - i,
    {
        proof {
            reveal(Seq::filter);
            assert(vs.take(i + 1).drop_last() =~= vs.take(i as int));
        }
        if !str_equal(ps[i].0.as_str(), k) {
            let ghost before = out@;
            out.push((ps[i].0.clone(), ps[i].1.clone()));
            assert(pair_views(out@) =~= pair_views(before).push(vs[i as int]));
        }
        i = i + 1;
    }
    assert(vs.take(ps@.len() as int) =~= vs);
    *ps = out;
}

fn remove_text(ts: &mut Vec<String>, t: &str)
    ensures
        text_views(final(ts)@) == texts_without(text_views(old(ts)@), t@),
{
    let ghost vs = text_views(ts@);
    let mut out: Vec<String> = Vec::new();
    let mut i: usize = 0;
    while i < ts.len()
        invariant
            i <= ts@.len(),
            vs == text_views(ts@),
            text_views(out@) == texts_without(vs.take(i as int), t@),
        decreases ts@.len() - i,
    {
        proof {
            reveal(Seq::filter);
            assert(vs.take(i + 1).drop_last() =~= vs.take(i as int));
        }
        if !str_equal(ts[i].as_str(), t) {
            let ghost before = out@;
            out.push(ts[i].clone());
            assert(text_views(out@) =~= text_views(before).push(vs[i as int]));
        }
        i = i + 1;
    }
    assert(vs.take(ts@.len() as int) =~= vs);
    *ts = out;
}

impl StorageEdit {
    /// The section for a VM whose drives are `drives`, the first one
    /// highlighted.
    pub fn new(drives: Vec<Drive>) -> (r: Self)
        ensures
            r.drives == drives,
            r.drive_selected == if drives@.len() == 0 {
                None
            } else {
                Some(0usize)
            },
            r.new_drive is None,
            r.drive_resize is None,
            r.added_disks@.len() == 0,
            r.resized_drives@.len() == 0,
            r.deleted_drive_paths@.len() == 0,
    {
        let drive_selected = if drives.len() == 0 {
            None
        } else {
            Some(0)
        };
        StorageEdit {
            drive_selected,
            new_drive: None,
            drive_resize: None,
            added_disks: Vec::new(),
            resized_drives: Vec::new(),
            deleted_drive_paths: Vec::new(),
            drives,
        }
    }

    /// A disk or resize form is open.
    pub fn new_drive_popup(&self) -> (r: bool)
        ensures
            r == (self.new_drive is Some || self.drive_resize is Some),
    {
        self.new_drive.is_some() || self.drive_resize.is_some()
    }

    /// The paths of the drives marked for removal.
    pub fn deleted_drive_paths(&self) -> (r: Vec<String>)
        ensures
            text_views(r@) == text_views(self.deleted_drive_paths@),
    {
        let mut out: Vec<String> = Vec::new();
        let mut i: usize = 0;
        while i < self.deleted_drive_paths.len()
            invariant
                i <= self.deleted_drive_paths@.len(),
                text_views(out@) == text_views(self.deleted_drive_paths@.take(i as int)),
            decreases self.deleted_drive_paths@.len() - i,
        {
            let ghost before = out@;
            out.push(self.deleted_drive_paths[i].clone());
            assert(text_views(out@) =~= text_views(before).push(
                self.deleted_drive_paths@[i as int]@,
            ));
            i = i + 1;
            assert(text_views(self.deleted_drive_paths@.take(i as int)) =~= text_views(
                self.deleted_drive_paths@.take(i - 1),
            ).push(self.deleted_drive_paths@[i - 1]@));
        }
        assert(self.deleted_drive_paths@.take(i as int) =~= self.deleted_drive_paths@);
        out
    }

    /// The disks added.
    pub fn added_disks(&self) -> (r: Vec<Disk>)
        ensures
            r@ == self.added_disks@,
    {
        self.added_disks.clone()
    }

    /// The new sizes asked for, by drive path.
    pub fn resized_drives(&self) -> (r: Vec<(String, String)>)
        ensures
            pair_views(r@) == pair_views(self.resized_drives@),
    {
        let mut out: Vec<(String, String)> = Vec::new();
        let mut i: usize = 0;
        while i < self.resized_drives.len()
            invariant
                i <= self.resized_drives@.len(),
                pair_views(out@) == pair_views(self.resized_drives@.take(i as int)),
            decreases self.resized_drives@.len() - i,
        {
            let ghost before = out@;
            out.push((self.resized_drives[i].0.clone(), self.resized_drives[i].1.clone()));
            assert(pair_views(out@) =~= pair_views(before).push(
                pair_views(self.resized_drives@)[i as int],
            ));
            i = i + 1;
            assert(pair_views(self.resized_drives@.take(i as int)) =~= pair_views(
                self.resized_drives@.take(i - 1),
            ).push(pair_views(self.resized_drives@)[i - 1]));
        }
        assert(self.resized_drives@.take(i as int) =~= self.resized_drives@);
        out
    }

    /// The size, in bytes, asked for by the text `new_size` for a drive of
    /// `current_size` bytes, read with the compiled `SIZE_PARTS_PATTERN`.
    pub fn new_size_to_u16(current_size: u64, new_size: &str, parts: &Pattern) -> (r: Result<
        u64,
        ResizeError,
    >)
        requires
            parts@ == SIZE_PARTS_PATTERN@,
            regex_captures(SIZE_PARTS_PATTERN@, new_size@) matches Some(g) && resize_ok(
                current_size,
                g,
            ),
        ensures
            match r {
                Ok(s) => resized(current_size, regex_captures(SIZE_PARTS_PATTERN@, new_size@)->0)
                    == Ok::<nat, ResizeError>(s as nat),
                Err(e) => resized(current_size, regex_captures(SIZE_PARTS_PATTERN@, new_size@)->0)
                    == Err::<nat, ResizeError>(e),
            },
    {
        let groups = capture_groups(parts, new_size).unwrap();
        resize_from_groups(current_size, &groups)
    }

    /// The size asked for by `new_size` (see `new_size_to_u16`), or none when
    /// the text does not read as a size that can be computed without a fault.
    pub fn checked_new_size(current_size: u64, new_size: &str, parts: &Pattern) -> (r: Option<
        Result<u64, ResizeError>,
    >)
        requires
            parts@ == SIZE_PARTS_PATTERN@,
        ensures
            r is Some <==> (regex_captures(SIZE_PARTS_PATTERN@, new_size@) matches Some(g)
                && resize_ok(current_size, g)),
            r matches Some(x) ==> match x {
                Ok(s) => resized(current_size, regex_captures(SIZE_PARTS_PATTERN@, new_size@)->0)
                    == Ok::<nat, ResizeError>(s as nat),
                Err(e) => resized(current_size, regex_captures(SIZE_PARTS_PATTERN@, new_size@)->0)
                    == Err::<nat, ResizeError>(e),
            },
    {
        match capture_groups(parts, new_size) {
            Some(groups) => {
                if groups_ok(current_size, &groups) {
                    Some(StorageEdit::new_size_to_u16(current_size, new_size, parts))
                } else {
                    None
                }
            },
            None => None,
        }
    }
}

impl StorageEdit {
    /// The number of rows: the VM's drives and the added disks.
    pub open spec fn rows(&self) -> nat {
        self.drives@.len() + self.added_disks@.len()
    }

    /// The key can be handled without a fault: moving the highlight down
    /// finds rows, and removing finds the highlight on one.
    pub open spec fn key_ok(&self, key: Key) -> bool {
        &&& self.rows() < usize::MAX
        &&& (self.new_drive is None && self.drive_resize is None) ==> {
            &&& (is_down(key) && self.drive_selected is Some) ==> self.rows() > 0
            &&& (!is_down(key) && !is_up(key) && key == Key::Char('d')
                && self.drive_selected is Some) ==> self.drive_selected->0 < self.rows()
        }
    }

    /// Reacts to a key, on a VM of architecture `arch`, with the compiled
    /// size patterns. While the disk form is open, Esc closes it, Enter adds
    /// its disk when it is valid and other keys go to it. While the resize
    /// form is open, Esc closes it, Enter records the new size of the
    /// highlighted drive when it is valid (and closes the form), and other
    /// keys go to its field. Otherwise the vertical keys move the highlight;
    /// `d` marks the highlighted drive for removal (forgetting its new size)
    /// or drops the highlighted added disk; `u` takes back the removal and the
    /// new size of the highlighted drive; `n` opens the disk form; `r` opens
    /// the resize form for the highlighted drive unless it is marked for
    /// removal or already resized. Returns true when the key belongs to a
    /// form's text field.
    pub fn handle_key_events(&mut self, key: Key, arch: Arch, patterns: &SizePatterns) -> (to_field:
        bool)
        requires
            old(self).key_ok(key),
            patterns.size@ == SIZE_PATTERN@,
        ensures
            final(self).drives == old(self).drives,
            match (old(self).new_drive, old(self).drive_resize) {
                (Some(form), _) => {
                    &&& final(self).drive_resize == old(self).drive_resize
                    &&& final(self).resized_drives == old(self).resized_drives
                    &&& final(self).deleted_drive_paths == old(self).deleted_drive_paths
                    &&& if key == Key::Esc {
                        &&& final(self).new_drive is None
                        &&& final(self).added_disks == old(self).added_disks
                        &&& final(self).drive_selected == old(self).drive_selected
                        &&& !to_field
                    } else if key == Key::Enter {
                        let ok = size_field_error(form.size@) is None;
                        &&& !to_field
                        &&& ok ==> {
                            &&& final(self).new_drive is None
                            &&& final(self).added_disks@ == old(self).added_disks@.push(
                                Disk {
                                    size: parse_unsigned(form.size@, 18446744073709551615)->0 as u64,
                                    format: form.format,
                                    interface: form.interface,
                                },
                            )
                            &&& final(self).drive_selected == match old(self).drive_selected {
                                Some(i) => Some(i),
                                None => Some(0usize),
                            }
                        }
                        &&& !ok ==> {
                            &&& (final(self).new_drive matches Some(f) && f.section == form.section
                                && f.format == form.format && f.size == form.size && f.interface
                                == form.interface && opt_view(f.size_error) == size_field_error(
                                form.size@,
                            ))
                            &&& final(self).added_disks == old(self).added_disks
                            &&& final(self).drive_selected == old(self).drive_selected
                        }
                    } else {
                        &&& (final(self).new_drive matches Some(f) && disk_form_after(
                            form,
                            f,
                            key,
                            arch,
                        ))
                        &&& to_field == disk_key_to_field(form.section, key, arch)
                        &&& final(self).added_disks == old(self).added_disks
                        &&& final(self).drive_selected == old(self).drive_selected
                    }
                },
                (None, Some(resize)) => {
                    &&& final(self).new_drive is None
                    &&& final(self).added_disks == old(self).added_disks
                    &&& final(self).deleted_drive_paths == old(self).deleted_drive_paths
                    &&& final(self).drive_selected == old(self).drive_selected
                    &&& if key == Key::Esc {
                        &&& final(self).drive_resize is None
                        &&& final(self).resized_drives == old(self).resized_drives
                        &&& !to_field
                    } else if key == Key::Enter {
                        let ok = resize.new_size@.len() > 0 && regex_is_match(
                            SIZE_PATTERN@,
                            resize.new_size@,
                        );
                        &&& !to_field
                        &&& ok ==> {
                            &&& final(self).drive_resize is None
                            &&& pair_views(final(self).resized_drives@) == match old(self).drive_selected {
                                Some(i) => if i < old(self).drives@.len() {
                                    with_entry(
                                        pair_views(old(self).resized_drives@),
                                        old(self).drives@[i as int].path@,
                                        resize.new_size@,
                                    )
                                } else {
                                    pair_views(old(self).resized_drives@)
                                },
                                None => pair_views(old(self).resized_drives@),
                            }
                        }
                        &&& !ok ==> {
                            &&& (final(self).drive_resize matches Some(f) && f.drive
                                == resize.drive && f.new_size == resize.new_size
                                && f.new_size_cursor == resize.new_size_cursor && opt_view(
                                f.new_size_error,
                            ) == new_size_error(resize.new_size@, opt_view(resize.new_size_error)))
                            &&& final(self).resized_drives == old(self).resized_drives
                        }
                    } else {
                        &&& (final(self).drive_resize matches Some(f) && f.drive == resize.drive
                            && f.new_size_error == resize.new_size_error && typed(
                            resize.new_size,
                            resize.new_size_cursor,
                            f.new_size,
                            f.new_size_cursor,
                            key,
                        ))
                        &&& final(self).resized_drives == old(self).resized_drives
                        &&& to_field
                    }
                },
                (None, None) => {
                    let k = old(self).drives@.len();
                    &&& !to_field
                    &&& final(self).new_drive is None || key == Key::Char('n')
                    &&& if is_down(key) {
                        &&& final(self).drive_selected == match old(self).drive_selected {
                            Some(i) => Some(row_below(i, old(self).rows())),
                            None => None,
                        }
                        &&& final(self).added_disks == old(self).added_disks
                        &&& final(self).resized_drives == old(self).resized_drives
                        &&& final(self).deleted_drive_paths == old(self).deleted_drive_paths
                        &&& final(self).new_drive is None && final(self).drive_resize is None
                    } else if is_up(key) {
                        &&& final(self).drive_selected == match old(self).drive_selected {
                            Some(i) => Some(row_above(i)),
                            None => None,
                        }
                        &&& final(self).added_disks == old(self).added_disks
                        &&& final(self).resized_drives == old(self).resized_drives
                        &&& final(self).deleted_drive_paths == old(self).deleted_drive_paths
                        &&& final(self).new_drive is None && final(self).drive_resize is None
                    } else if key == Key::Char('d') && old(self).drive_selected is Some {
                        let i = old(self).drive_selected->0;
                        &&& final(self).drive_selected == old(self).drive_selected
                        &&& final(self).new_drive is None && final(self).drive_resize is None
                        &&& if i < k {
                            let path = old(self).drives@[i as int].path@;
                            &&& text_views(final(self).deleted_drive_paths@) == text_views(
                                old(self).deleted_drive_paths@,
                            ).push(path)
                            &&& pair_views(final(self).resized_drives@) == without_key(
                                pair_views(old(self).resized_drives@),
                                path,
                            )
                            &&& final(self).added_disks == old(self).added_disks
                        } else {
                            &&& final(self).added_disks@ == old(self).added_disks@.remove(i - k)
                            &&& final(self).resized_drives == old(self).resized_drives
                            &&& final(self).deleted_drive_paths == old(self).deleted_drive_paths
                        }
                    } else if key == Key::Char('u') && old(self).drive_selected is Some
                        && old(self).drive_selected->0 < k {
                        let path = old(self).drives@[old(self).drive_selected->0 as int].path@;
                        &&& text_views(final(self).deleted_drive_paths@) == texts_without(
                            text_views(old(self).deleted_drive_paths@),
                            path,
                        )
                        &&& pair_views(final(self).resized_drives@) == without_key(
                            pair_views(old(self).resized_drives@),
                            path,
                        )
                        &&& final(self).added_disks == old(self).added_disks
                        &&& final(self).drive_selected == old(self).drive_selected
                        &&& final(self).new_drive is None && final(self).drive_resize is None
                    } else if key == Key::Char('r') {
                        &&& final(self).added_disks == old(self).added_disks
                        &&& final(self).resized_drives == old(self).resized_drives
                        &&& final(self).deleted_drive_paths == old(self).deleted_drive_paths
                        &&& final(self).drive_selected == old(self).drive_selected
                        &&& final(self).new_drive is None
                        &&& match old(self).drive_selected {
                            Some(i) => if i < k && !text_views(
                                old(self).deleted_drive_paths@,
                            ).contains(old(self).drives@[i as int].path@) && !(exists|j: int|
                                0 <= j < old(self).resized_drives@.len() && pair_views(
                                    old(self).resized_drives@,
                                )[j].0 == old(self).drives@[i as int].path@) {
                                final(self).drive_resize matches Some(f) && f.drive == old(self).drives@[i as int] && f.new_size@.len() == 0
                                    && f.new_size_cursor == 0 && f.new_size_error is None
                            } else {
                                final(self).drive_resize is None
                            },
                            None => final(self).drive_resize is None,
                        }
                    } else {
                        &&& final(self).added_disks == old(self).added_disks
                        &&& final(self).resized_drives == old(self).resized_drives
                        &&& final(self).deleted_drive_paths == old(self).deleted_drive_paths
                        &&& final(self).drive_selected == old(self).drive_selected
                        &&& final(self).drive_resize is None
                        &&& if key == Key::Char('n') {
                            final(self).new_drive matches Some(f) && f.is_fresh()
                        } else {
                            final(self).new_drive is None
                        }
                    }
                },
            },
    {
        if self.new_drive.is_some() {
            let mut form = self.new_drive.take().unwrap();
            if key == Key::Esc {
                return false;
            }
            if key == Key::Enter {
                if form.validate() {
                    let disk = form.build();
                    self.added_disks.push(disk);
                    if self.drive_selected.is_none() {
                        self.drive_selected = Some(0);
                    }
                } else {
                    self.new_drive = Some(form);
                }
                return false;
            }
            let to_field = form.handle_key_events(key, arch);
            self.new_drive = Some(form);
            return to_field;
        }
        if self.drive_resize.is_some() {
            let mut resize = self.drive_resize.take().unwrap();
            if key == Key::Esc {
                return false;
            }
            if key == Key::Enter {
                if resize.validate(&patterns.size) {
                    match self.drive_selected {
                        Some(i) => {
                            if i < self.drives.len() {
                                set_entry(
                                    &mut self.resized_drives,
                                    self.drives[i].path.as_str(),
                                    resize.new_size.clone(),
                                );
                            }
                        },
                        None => {},
                    }
                } else {
                    self.drive_resize = Some(resize);
                }
                return false;
            }
            let to_field = resize.handle_key_events(key);
            self.drive_resize = Some(resize);
            return to_field;
        }
        let rows = self.drives.len() + self.added_disks.len();
        if key.down() {
            self.drive_selected = select_next(self.drive_selected, rows);
        } else if key.up() {
            self.drive_selected = select_prev(self.drive_selected);
        } else if key == Key::Char('d') {
            match self.drive_selected {
                Some(i) => {
                    if i < self.drives.len() {
                        let ghost before = self.deleted_drive_paths@;
                        self.deleted_drive_paths.push(self.drives[i].path.clone());
                        assert(text_views(self.deleted_drive_paths@) =~= text_views(before).push(
                            self.drives@[i as int].path@,
                        ));
                        remove_key(&mut self.resized_drives, self.drives[i].path.as_str());
                    } else {
                        self.added_disks.remove(i - self.drives.len());
                    }
                },
                None => {},
            }
        } else if key == Key::Char('u') {
            match self.drive_selected {
                Some(i) => {
                    if i < self.drives.len() {
                        remove_text(&mut self.deleted_drive_paths, self.drives[i].path.as_str());
                        remove_key(&mut self.resized_drives, self.drives[i].path.as_str());
                    }
                },
                None => {},
            }
        } else if key == Key::Char('n') {
            self.new_drive = Some(DiskBuilder::new());
        } else if key == Key::Char('r') {
            match self.drive_selected {
                Some(i) => {
                    if i < self.drives.len() && !has_text(
                        &self.deleted_drive_paths,
                        self.drives[i].path.as_str(),
                    ) && !has_key(&self.resized_drives, self.drives[i].path.as_str()) {
                        self.drive_resize = Some(DriveResize::new(&self.drives[i]));
                    }
                },
                None => {},
            }
        }
        false
    }
}

} // verus!
