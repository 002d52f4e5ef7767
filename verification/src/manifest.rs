use vstd::prelude::*;
use vstd::string::{StrSliceExecFns, StringExecFns};
use crate::errors::GenError;
use crate::strutil::str_eq;

verus! {

/// The characters of the `name` manifest key.
pub open spec fn name_key() -> Seq<char> {
    seq!['n', 'a', 'm', 'e']
}

/// The characters of the `license` manifest key.
pub open spec fn license_key() -> Seq<char> {
    seq!['l', 'i', 'c', 'e', 'n', 's', 'e']
}

/// The characters of the `readme` manifest key.
pub open spec fn readme_key() -> Seq<char> {
    seq!['r', 'e', 'a', 'd', 'm', 'e']
}

/// The characters of the value recorded for the `license` field.
pub open spec fn mit_value() -> Seq<char> {
    seq!['M', 'I', 'T']
}

/// The characters of the value recorded for the `readme` field.
pub open spec fn readme_value() -> Seq<char> {
    seq!['R', 'E', 'A', 'D', 'M', 'E', '.', 'm', 'd']
}

/// The manifest line `key = "value"`.
pub open spec fn field_line_spec(key: Seq<char>, value: Seq<char>) -> Seq<char> {
    key + seq![' ', '=', ' ', '"'] + value + seq!['"']
}

/// Whether `line` declares the field `key`, that is, starts with `key = `.
pub open spec fn line_is_field(line: Seq<char>, key: Seq<char>) -> bool {
    &&& line.len() >= key.len() + 3
    &&& line.subrange(0, key.len() as int) == key
    &&& line[key.len() as int] == ' '
    &&& line[key.len() as int + 1] == '='
    &&& line[key.len() as int + 2] == ' '
}

/// Whether some line of the document declares the field `key`.
pub open spec fn has_field(lines: Seq<Seq<char>>, key: Seq<char>) -> bool {
    exists|i: int| 0 <= i < lines.len() && line_is_field(lines[i], key)
}

/// Whether `i` is the first line declaring the field `key`.
pub open spec fn is_first_field_index(lines: Seq<Seq<char>>, key: Seq<char>, i: int) -> bool {
    &&& 0 <= i < lines.len()
    &&& line_is_field(lines[i], key)
    &&& forall|j: int| 0 <= j < i ==> !line_is_field(lines[j], key)
}

/// A blank line: the insertion anchor of the document.
pub open spec fn is_blank(line: Seq<char>) -> bool {
    line.len() == 0
}

/// Whether the document has an insertion point at all.
pub open spec fn has_blank(lines: Seq<Seq<char>>) -> bool {
    exists|i: int| 0 <= i < lines.len() && is_blank(lines[i])
}

/// Whether `i` is the first blank line, the insertion point.
pub open spec fn is_first_blank_index(lines: Seq<Seq<char>>, i: int) -> bool {
    &&& 0 <= i < lines.len()
    &&& is_blank(lines[i])
    &&& forall|j: int| 0 <= j < i ==> !is_blank(lines[j])
}

/// How many lines of the document declare the field `key`.
pub open spec fn count_fields(lines: Seq<Seq<char>>, key: Seq<char>) -> nat
    decreases lines.len(),
{
    if lines.len() == 0 {
        0
    } else {
        (if line_is_field(lines[0], key) {
            1nat
        } else {
            0nat
        }) + count_fields(lines.drop_first(), key)
    }
}

/// What inserting `key = "value"` does to a document: if a line already
/// declares `key`, the first such line is replaced in place; otherwise the
/// new line goes immediately before the first blank line; a document without
/// either yields `None`.
pub open spec fn doc_insert_field(
    lines: Seq<Seq<char>>,
    key: Seq<char>,
    value: Seq<char>,
) -> Option<Seq<Seq<char>>> {
    if has_field(lines, key) {
        let i = choose|i: int| is_first_field_index(lines, key, i);
        Some(lines.update(i, field_line_spec(key, value)))
    } else if has_blank(lines) {
        let b = choose|b: int| is_first_blank_index(lines, b);
        Some(lines.insert(b, field_line_spec(key, value)))
    } else {
        None
    }
}

/// The document text: its lines joined by newlines, with no trailing newline.
pub open spec fn join_lines(lines: Seq<Seq<char>>) -> Seq<char>
    decreases lines.len(),
{
    if lines.len() == 0 {
        Seq::empty()
    } else if lines.len() == 1 {
        lines[0]
    } else {
        lines[0] + seq!['\n'] + join_lines(lines.drop_first())
    }
}

/// Renders the manifest line `key = "value"`.
pub fn render_field_line(key: &str, value: &str) -> (r: String)
    ensures
        r@ == field_line_spec(key@, value@),
{
    let mut s = String::from_str(key);
    s.append(" = \"");
    s.append(value);
    s.append("\"");
    proof {
        reveal_strlit(" = \"");
        reveal_strlit("\"");
        assert(" = \""@ =~= seq![' ', '=', ' ', '"']);
        assert("\""@ =~= seq!['"']);
        assert(s@ =~= field_line_spec(key@, value@));
    }
    s
}

/// Decides whether `line` declares the field `key`.
fn line_has_key(line: &str, key: &str) -> (r: bool)
    ensures
        r == line_is_field(line@, key@),
{
    let llen = line.unicode_len();
    let klen = key.unicode_len();
    if llen < 3 || llen - 3 < klen {
        return false;
    }
    let prefix = line.substring_char(0, klen);
    if !str_eq(prefix, key) {
        return false;
    }
    if line.get_char(klen) != ' ' {
        return false;
    }
    if line.get_char(klen + 1) != '=' {
        return false;
    }
    if line.get_char(klen + 2) != ' ' {
        return false;
    }
    true
}

/// An ordered, mutable line document standing for the package manifest.
pub struct ManifestDocument {
    lines: Vec<String>,
}

impl View for ManifestDocument {
    type V = Seq<Seq<char>>;

    closed spec fn view(&self) -> Seq<Seq<char>> {
        self.lines.deep_view()
    }
}

impl ManifestDocument {
    /// Wraps an ordered line sequence as a document.
    pub fn from_lines(lines: Vec<String>) -> (doc: ManifestDocument)
        ensures
            doc@ == lines.deep_view(),
    {
        ManifestDocument { lines }
    }

    /// The lines of the document, in order.
    pub fn lines(&self) -> (r: &Vec<String>)
        ensures
            r.deep_view() == self@,
    {
        &self.lines
    }

    /// The first line declaring `key`, if any line does.
    fn find_field(&self, key: &str) -> (r: Option<usize>)
        ensures
            match r {
                Some(i) => is_first_field_index(self@, key@, i as int),
                None => !has_field(self@, key@),
            },
    {
        let n = self.lines.len();
        let mut i: usize = 0;
        while i < n
            invariant
                i <= n,
                n == self.lines.len(),
                self@.len() == n,
                forall|j: int| 0 <= j < i ==> !line_is_field(self@[j], key@),
            decreases n - i,
        {
            if line_has_key(self.lines[i].as_str(), key) {
                return Some(i);
            }
            i += 1;
        }
        None
    }

    /// The first blank line, the insertion point, if one exists.
    fn find_blank(&self) -> (r: Option<usize>)
        ensures
            match r {
                Some(i) => is_first_blank_index(self@, i as int),
                None => !has_blank(self@),
            },
    {
        let n = self.lines.len();
        let mut i: usize = 0;
        while i < n
            invariant
                i <= n,
                n == self.lines.len(),
                self@.len() == n,
                forall|j: int| 0 <= j < i ==> !is_blank(self@[j]),
            decreases n - i,
        {
            if self.lines[i].as_str().is_empty() {
                return Some(i);
            }
            i += 1;
        }
        None
    }

    /// Inserts `key = "value"` into the document: replaces the first line
    /// already declaring `key`, or puts the new line immediately before the
    /// first blank line.  Fails, leaving the document unchanged, only when
    /// the document has neither such line.
    pub fn insert_field(&mut self, key: &str, value: &str) -> (r: Result<(), GenError>)
        ensures
            match doc_insert_field(old(self)@, key@, value@) {
                Some(d) => final(self)@ == d && r == Ok::<(), GenError>(()),
                None => final(self)@ == old(self)@ && r == Err::<(), GenError>(GenError::MalformedManifest),
            },
    {
        let fl = render_field_line(key, value);
        let found = self.find_field(key);
        match found {
            Some(i) => {
                self.lines.set(i, fl);
                proof {
                    let li = choose|x: int| is_first_field_index(old(self)@, key@, x);
                    assert(is_first_field_index(old(self)@, key@, i as int));
                    assert(li == i as int);
                    assert(self@ =~= old(self)@.update(i as int, field_line_spec(key@, value@)));
                }
                Ok(())
            },
            None => {
                let blank = self.find_blank();
                match blank {
                    Some(b) => {
                        self.lines.insert(b, fl);
                        proof {
                            let lb = choose|x: int| is_first_blank_index(old(self)@, x);
                            assert(is_first_blank_index(old(self)@, b as int));
                            assert(lb == b as int);
                            assert(self@ =~= old(self)@.insert(
                                b as int,
                                field_line_spec(key@, value@),
                            ));
                        }
                        Ok(())
                    },
                    None => Err(GenError::MalformedManifest),
                }
            },
        }
    }

    /// Serializes the document: lines joined by newlines.
    pub fn serialize(&self) -> (r: String)
        ensures
            r@ == join_lines(self@),
    {
        let mut s = String::new();
        let n = self.lines.len();
        let mut i: usize = 0;
        while i < n
            invariant
                i <= n,
                n == self.lines.len(),
                self@.len() == n,
                s@ == join_lines(self@.take(i as int)),
            decreases n - i,
        {
            if i > 0 {
                s.append("\n");
            }
            s.append(self.lines[i].as_str());
            proof {
                reveal_strlit("\n");
                assert("\n"@ =~= seq!['\n']);
                lemma_join_lines_push(self@.take(i as int), self@[i as int]);
                assert(self@.take(i as int + 1) =~= self@.take(i as int).push(self@[i as int]));
            }
            i += 1;
        }
        proof {
            assert(self@.take(n as int) =~= self@);
        }
        s
    }
}

/// A document with a line declaring `key` has a first such line.
pub proof fn lemma_exists_first_field_index(lines: Seq<Seq<char>>, key: Seq<char>)
    requires
        has_field(lines, key),
    ensures
        exists|i: int| is_first_field_index(lines, key, i),
    decreases lines.len(),
{
    if line_is_field(lines[0], key) {
        assert(is_first_field_index(lines, key, 0));
    } else {
        let w = choose|i: int| 0 <= i < lines.len() && line_is_field(lines[i], key);
        assert(0 <= w - 1 < lines.drop_first().len() && line_is_field(
            lines.drop_first()[w - 1],
            key,
        ));
        lemma_exists_first_field_index(lines.drop_first(), key);
        let i = choose|i: int| is_first_field_index(lines.drop_first(), key, i);
        assert(lines[i + 1] == lines.drop_first()[i]);
        assert forall|j: int| 0 <= j < i + 1 implies !line_is_field(lines[j], key) by {
            if j >= 1 {
                assert(lines[j] == lines.drop_first()[j - 1]);
            }
        }
        assert(is_first_field_index(lines, key, i + 1));
    }
}

/// A document with a blank line has a first one.
pub proof fn lemma_exists_first_blank_index(lines: Seq<Seq<char>>)
    requires
        has_blank(lines),
    ensures
        exists|i: int| is_first_blank_index(lines, i),
    decreases lines.len(),
{
    if is_blank(lines[0]) {
        assert(is_first_blank_index(lines, 0));
    } else {
        let w = choose|i: int| 0 <= i < lines.len() && is_blank(lines[i]);
        assert(0 <= w - 1 < lines.drop_first().len() && is_blank(lines.drop_first()[w - 1]));
        lemma_exists_first_blank_index(lines.drop_first());
        let i = choose|i: int| is_first_blank_index(lines.drop_first(), i);
        assert(lines[i + 1] == lines.drop_first()[i]);
        assert forall|j: int| 0 <= j < i + 1 implies !is_blank(lines[j]) by {
            if j >= 1 {
                assert(lines[j] == lines.drop_first()[j - 1]);
            }
        }
        assert(is_first_blank_index(lines, i + 1));
    }
}

/// On a document that still has its insertion point, inserting a field
/// always succeeds, and the result still has a blank line.
pub proof fn lemma_insert_field_defined(lines: Seq<Seq<char>>, key: Seq<char>, value: Seq<char>)
    requires
        has_blank(lines),
    ensures
        doc_insert_field(lines, key, value) matches Some(d) && has_blank(d),
{
    let wb = choose|i: int| 0 <= i < lines.len() && is_blank(lines[i]);
    if has_field(lines, key) {
        lemma_exists_first_field_index(lines, key);
        let i = choose|i: int| is_first_field_index(lines, key, i);
        let d = lines.update(i, field_line_spec(key, value));
        assert(!is_blank(lines[i]));
        assert(is_blank(d[wb]));
    } else {
        lemma_exists_first_blank_index(lines);
        let b = choose|b: int| is_first_blank_index(lines, b);
        let d = lines.insert(b, field_line_spec(key, value));
        if wb < b {
            assert(is_blank(d[wb]));
        } else {
            assert(d[wb + 1] == lines[wb]);
            assert(is_blank(d[wb + 1]));
        }
    }
}

/// The rendered line `key = "value"` itself declares the field `key`.
pub proof fn lemma_field_line_is_field(key: Seq<char>, value: Seq<char>)
    ensures
        line_is_field(field_line_spec(key, value), key),
{
    let line = field_line_spec(key, value);
    assert(line.subrange(0, key.len() as int) =~= key);
    assert(line[key.len() as int] == ' ');
    assert(line[key.len() as int + 1] == '=');
    assert(line[key.len() as int + 2] == ' ');
}

/// A line whose first character differs from the key's first character does
/// not declare that key.
pub proof fn lemma_head_differs_not_field(line: Seq<char>, key: Seq<char>)
    requires
        key.len() > 0,
        line.len() == 0 || line[0] != key[0],
    ensures
        !line_is_field(line, key),
{
    if line.len() >= key.len() + 3 && line.subrange(0, key.len() as int) == key {
        assert(line.subrange(0, key.len() as int)[0] == line[0]);
    }
}

/// A document declares a key exactly as often as its field count says: the
/// count is zero precisely when no line declares the key.
pub proof fn lemma_count_fields_zero(lines: Seq<Seq<char>>, key: Seq<char>)
    ensures
        (count_fields(lines, key) == 0) <==> !has_field(lines, key),
    decreases lines.len(),
{
    if lines.len() == 0 {
    } else {
        lemma_count_fields_zero(lines.drop_first(), key);
        if has_field(lines, key) {
            let w = choose|i: int| 0 <= i < lines.len() && line_is_field(lines[i], key);
            if w > 0 {
                assert(lines.drop_first()[w - 1] == lines[w]);
                assert(has_field(lines.drop_first(), key));
            }
        }
        if has_field(lines.drop_first(), key) {
            let w = choose|i: int|
                0 <= i < lines.drop_first().len() && line_is_field(lines.drop_first()[i], key);
            assert(lines[w + 1] == lines.drop_first()[w]);
            assert(has_field(lines, key));
        }
    }
}

/// Replacing one line adjusts the field count by what leaves and what
/// enters.
pub proof fn lemma_count_fields_update(
    lines: Seq<Seq<char>>,
    key: Seq<char>,
    i: int,
    x: Seq<char>,
)
    requires
        0 <= i < lines.len(),
    ensures
        count_fields(lines.update(i, x), key) == count_fields(lines, key) - (
        if line_is_field(lines[i], key) {
            1int
        } else {
            0int
        }) + (if line_is_field(x, key) {
            1int
        } else {
            0int
        }),
    decreases lines.len(),
{
    let u = lines.update(i, x);
    if i == 0 {
        assert(u.drop_first() =~= lines.drop_first());
    } else {
        assert(u[0] == lines[0]);
        assert(u.drop_first() =~= lines.drop_first().update(i - 1, x));
        lemma_count_fields_update(lines.drop_first(), key, i - 1, x);
    }
}

/// Inserting one line raises the field count exactly when the new line
/// declares the key.
pub proof fn lemma_count_fields_insert(
    lines: Seq<Seq<char>>,
    key: Seq<char>,
    b: int,
    x: Seq<char>,
)
    requires
        0 <= b <= lines.len(),
    ensures
        count_fields(lines.insert(b, x), key) == count_fields(lines, key) + (
        if line_is_field(x, key) {
            1int
        } else {
            0int
        }),
    decreases lines.len(),
{
    let u = lines.insert(b, x);
    if b == 0 {
        assert(u[0] == x);
        assert(u.drop_first() =~= lines);
    } else {
        assert(u[0] == lines[0]);
        assert(u.drop_first() =~= lines.drop_first().insert(b - 1, x));
        lemma_count_fields_insert(lines.drop_first(), key, b - 1, x);
    }
}

/// A document whose only line declaring `key` is line `i` declares the key
/// exactly once.
pub proof fn lemma_count_fields_single(lines: Seq<Seq<char>>, key: Seq<char>, i: int)
    requires
        0 <= i < lines.len(),
        line_is_field(lines[i], key),
        forall|j: int| 0 <= j < lines.len() && j != i ==> !line_is_field(lines[j], key),
    ensures
        count_fields(lines, key) == 1,
    decreases lines.len(),
{
    if i == 0 {
        lemma_count_fields_zero(lines.drop_first(), key);
        if has_field(lines.drop_first(), key) {
            let w = choose|w: int|
                0 <= w < lines.drop_first().len() && line_is_field(lines.drop_first()[w], key);
            assert(lines[w + 1] == lines.drop_first()[w]);
        }
    } else {
        assert(lines.drop_first()[i - 1] == lines[i]);
        assert forall|j: int|
            0 <= j < lines.drop_first().len() && j != i - 1 implies !line_is_field(
            lines.drop_first()[j],
            key,
        ) by {
            assert(lines.drop_first()[j] == lines[j + 1]);
        }
        lemma_count_fields_single(lines.drop_first(), key, i - 1);
    }
}

/// Inserting a field into a document that declared the key at most once
/// leaves it declared exactly once.
pub proof fn lemma_insert_field_count_one(lines: Seq<Seq<char>>, key: Seq<char>, value: Seq<char>)
    requires
        count_fields(lines, key) <= 1,
        doc_insert_field(lines, key, value) is Some,
    ensures
        doc_insert_field(lines, key, value) matches Some(d) && count_fields(d, key) == 1,
{
    lemma_field_line_is_field(key, value);
    lemma_count_fields_zero(lines, key);
    if has_field(lines, key) {
        lemma_exists_first_field_index(lines, key);
        let i = choose|i: int| is_first_field_index(lines, key, i);
        lemma_count_fields_update(lines, key, i, field_line_spec(key, value));
    } else {
        lemma_exists_first_blank_index(lines);
        let b = choose|b: int| is_first_blank_index(lines, b);
        lemma_count_fields_insert(lines, key, b, field_line_spec(key, value));
    }
}

/// Inserting the same field twice is the same as inserting it once: the
/// second insertion replaces the line the first one produced, with the same
/// content.
pub proof fn lemma_insert_field_idempotent(lines: Seq<Seq<char>>, key: Seq<char>, value: Seq<char>)
    requires
        doc_insert_field(lines, key, value) is Some,
    ensures
        doc_insert_field(lines, key, value) matches Some(d) && doc_insert_field(d, key, value)
            == Some(d),
{
    let fl = field_line_spec(key, value);
    lemma_field_line_is_field(key, value);
    if has_field(lines, key) {
        lemma_exists_first_field_index(lines, key);
        let i = choose|i: int| is_first_field_index(lines, key, i);
        let d = lines.update(i, fl);
        assert(line_is_field(d[i], key));
        assert(is_first_field_index(d, key, i));
        assert(has_field(d, key));
        let i2 = choose|x: int| is_first_field_index(d, key, x);
        assert(i2 == i);
        assert(d.update(i, fl) =~= d);
    } else {
        lemma_exists_first_blank_index(lines);
        let b = choose|b: int| is_first_blank_index(lines, b);
        let d = lines.insert(b, fl);
        assert(line_is_field(d[b], key));
        assert forall|j: int| 0 <= j < b implies !line_is_field(d[j], key) by {
            assert(d[j] == lines[j]);
            assert(!has_field(lines, key));
        }
        assert(is_first_field_index(d, key, b));
        assert(has_field(d, key));
        let i2 = choose|x: int| is_first_field_index(d, key, x);
        assert(i2 == b);
        assert(d.update(b, fl) =~= d);
    }
}

/// Joining after appending one line appends a newline and that line, except
/// to the empty document.
pub proof fn lemma_join_lines_push(lines: Seq<Seq<char>>, x: Seq<char>)
    ensures
        join_lines(lines.push(x)) == if lines.len() == 0 {
            x
        } else {
            join_lines(lines) + seq!['\n'] + x
        },
    decreases lines.len(),
{
    if lines.len() == 0 {
        assert(lines.push(x)[0] == x);
    } else if lines.len() == 1 {
        assert(lines.push(x).drop_first() =~= seq![x]);
        assert(join_lines(seq![x]) == x);
    } else {
        assert(lines.push(x).drop_first() =~= lines.drop_first().push(x));
        lemma_join_lines_push(lines.drop_first(), x);
        assert(lines.push(x)[0] == lines[0]);
        assert(join_lines(lines.push(x)) =~= join_lines(lines) + seq!['\n'] + x);
    }
}

} // verus!
