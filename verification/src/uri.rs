//! The target of a request taken apart: its path, the parameters of its
//! query, and the file that it names.

use crate::text::opt_text;
use crate::utils::{decode_url_value, same_text, url_decoded};
use vstd::prelude::*;

verus! {

/// The characters of each text.
pub open spec fn texts(list: Seq<String>) -> Seq<Seq<char>> {
    list.map_values(|text: String| text@)
}

/// Where `c` first stands in `text`, or the length of `text` where it
/// stands nowhere.
pub open spec fn first_index(text: Seq<char>, c: char) -> nat
    decreases text.len(),
{
    if text.len() == 0 || text[0] == c {
        0
    } else {
        1 + first_index(text.skip(1), c)
    }
}

/// `first_index` is the one place before which `c` does not stand and at
/// which it does, or the end.
pub proof fn lemma_first_index(text: Seq<char>, c: char, at: int)
    requires
        0 <= at <= text.len(),
        forall|i: int| 0 <= i < at ==> text[i] != c,
        at < text.len() ==> text[at] == c,
    ensures
        first_index(text, c) == at,
    decreases text.len(),
{
    if text.len() > 0 && text[0] != c {
        let rest = text.skip(1);
        assert forall|i: int| 0 <= i < at - 1 implies rest[i] != c by {
            assert(rest[i] == text[i + 1]);
        }
        lemma_first_index(rest, c, at - 1);
    }
}

/// `first_index` lies within the text, or at its end.
pub proof fn lemma_first_index_bound(text: Seq<char>, c: char)
    ensures
        first_index(text, c) <= text.len(),
    decreases text.len(),
{
    if text.len() > 0 && text[0] != c {
        lemma_first_index_bound(text.skip(1), c);
    }
}

/// The pieces of `text` between the separators `sep`. There is one piece
/// more than there are separators, and a piece may be empty.
pub open spec fn split(text: Seq<char>, sep: char) -> Seq<Seq<char>>
    decreases text.len(),
{
    let at = first_index(text, sep);
    if at >= text.len() {
        seq![text]
    } else {
        seq![text.take(at as int)] + split(text.skip(at as int + 1), sep)
    }
}

/// Where `c` first stands in `text` at or behind `from`, or the length of
/// `text`.
fn find_char(text: &str, c: char, from: usize, len: usize) -> (at: usize)
    requires
        from <= len,
        len == text@.len(),
    ensures
        from <= at <= len,
        at == from + first_index(text@.skip(from as int), c),
{
    let mut at: usize = from;
    while at < len
        invariant
            from <= at <= len,
            len == text@.len(),
            forall|i: int| from <= i < at ==> text@[i] != c,
        decreases len - at,
    {
        if text.get_char(at) == c {
            proof {
                lemma_first_index_from(text@, c, from as int, at as int);
            }
            return at;
        }
        at = at + 1;
    }
    proof {
        lemma_first_index_from(text@, c, from as int, at as int);
    }
    at
}

proof fn lemma_first_index_from(text: Seq<char>, c: char, from: int, at: int)
    requires
        0 <= from <= at <= text.len(),
        forall|i: int| from <= i < at ==> text[i] != c,
        at < text.len() ==> text[at] == c,
    ensures
        at == from + first_index(text.skip(from), c),
{
    let rest = text.skip(from);
    assert forall|i: int| 0 <= i < at - from implies rest[i] != c by {
        assert(rest[i] == text[from + i]);
    }
    lemma_first_index(rest, c, at - from);
}

/// Splits `text` at each separator `sep`.
pub fn split_text(text: &str, sep: char) -> (pieces: Vec<String>)
    ensures
        texts(pieces@) == split(text@, sep),
{
    let len = text.unicode_len();
    let mut pieces: Vec<String> = Vec::new();
    let mut start: usize = 0;
    proof {
        assert(text@.skip(0) =~= text@);
        assert(texts(pieces@) + split(text@, sep) =~= split(text@, sep));
    }
    loop
        invariant_except_break
            start <= len,
            len == text@.len(),
            split(text@, sep) == texts(pieces@) + split(text@.skip(start as int), sep),
        ensures
            texts(pieces@) == split(text@, sep),
        decreases len - start,
    {
        let at = find_char(text, sep, start, len);
        let piece = text.substring_char(start, at).to_string();
        let ghost rest = text@.skip(start as int);
        let ghost before = texts(pieces@);
        assert(piece@ == rest.take(at - start)) by {
            assert(text@.subrange(start as int, at as int) =~= rest.take(at - start));
        }
        pieces.push(piece);
        assert(texts(pieces@) =~= before.push(piece@));
        if at >= len {
            assert(rest.take(at - start) =~= rest);
            assert(texts(pieces@) =~= before + seq![rest]);
            break ;
        }
        assert(rest.skip(at - start + 1) =~= text@.skip(at + 1));
        assert(before + (seq![rest.take(at - start)] + split(text@.skip(at + 1), sep)) =~= texts(
            pieces@,
        ) + split(text@.skip(at + 1), sep));
        start = at + 1;
    }
    pieces
}

/// The path of a request target: what stands before the first `?`.
pub open spec fn path_of(uri: Seq<char>) -> Seq<char> {
    uri.take(first_index(uri, '?') as int)
}

/// The query of a request target: what stands behind the first `?`, if
/// there is one.
pub open spec fn query_of(uri: Seq<char>) -> Option<Seq<char>> {
    let at = first_index(uri, '?');
    if at < uri.len() {
        Some(uri.skip(at as int + 1))
    } else {
        None
    }
}

/// Takes a request target apart into path and query.
pub fn path_and_query(uri: &str) -> (parts: (String, Option<String>))
    ensures
        parts.0@ == path_of(uri@),
        opt_text(parts.1) == query_of(uri@),
{
    let len = uri.unicode_len();
    let at = find_char(uri, '?', 0, len);
    assert(uri@.skip(0) =~= uri@);
    let path = uri.substring_char(0, at).to_string();
    if at < len {
        let query = uri.substring_char(at + 1, len).to_string();
        (path, Some(query))
    } else {
        (path, None)
    }
}

/// The name of a parameter as it stands in a query: what stands before its
/// first `=`.
pub open spec fn item_key(item: Seq<char>) -> Seq<char> {
    item.take(first_index(item, '=') as int)
}

/// The value of a parameter as it stands in a query: what stands behind
/// its first `=`, or nothing where it has none.
pub open spec fn item_value(item: Seq<char>) -> Seq<char> {
    let at = first_index(item, '=');
    if at < item.len() {
        item.skip(at as int + 1)
    } else {
        Seq::empty()
    }
}

/// The value of the first of `items` that is named `key`.
pub open spec fn first_value(items: Seq<Seq<char>>, key: Seq<char>) -> Option<Seq<char>>
    decreases items.len(),
{
    if items.len() == 0 {
        None
    } else if item_key(items[0]) == key {
        Some(item_value(items[0]))
    } else {
        first_value(items.skip(1), key)
    }
}

/// The value of the parameter `key` of a query, as it stands there: the
/// parameters are separated by `&`, and the first one of that name counts.
pub open spec fn query_value(query: Seq<char>, key: Seq<char>) -> Option<Seq<char>> {
    first_value(split(query, '&'), key)
}

/// Looks a parameter up in a query. The value is not decoded.
pub fn find_query_value(query: &str, key: &str) -> (value: Option<String>)
    ensures
        opt_text(value) == query_value(query@, key@),
{
    let items = split_text(query, '&');
    let mut i: usize = 0;
    assert(texts(items@).skip(0) =~= texts(items@));
    while i < items.len()
        invariant
            i <= items@.len(),
            texts(items@) == split(query@, '&'),
            query_value(query@, key@) == first_value(texts(items@).skip(i as int), key@),
        decreases items@.len() - i,
    {
        let item = items[i].as_str();
        let ghost rest = texts(items@).skip(i as int);
        assert(rest[0] == item@);
        assert(rest.skip(1) =~= texts(items@).skip(i + 1));
        let len = item.unicode_len();
        let at = find_char(item, '=', 0, len);
        assert(item@.skip(0) =~= item@);
        if same_text(item.substring_char(0, at), key) {
            let value = if at < len {
                item.substring_char(at + 1, len).to_string()
            } else {
                String::new()
            };
            return Some(value);
        }
        i = i + 1;
    }
    None
}

/// The pieces that are not empty, in order.
pub open spec fn non_empty(pieces: Seq<Seq<char>>) -> Seq<Seq<char>> {
    pieces.filter(|piece: Seq<char>| piece.len() > 0)
}

/// The segments of a path: what stands between its slashes. Nothing
/// between two slashes is no segment.
pub open spec fn segments_of(path: Seq<char>) -> Seq<Seq<char>> {
    non_empty(split(path, '/'))
}

/// The segments of a path.
pub fn segments(path: &str) -> (segments: Vec<String>)
    ensures
        texts(segments@) == segments_of(path@),
{
    let pieces = split_text(path, '/');
    let ghost all = texts(pieces@);
    let mut segments: Vec<String> = Vec::new();
    proof {
        reveal(Seq::filter);
        assert(non_empty(all.take(0)) =~= Seq::<Seq<char>>::empty());
        assert(texts(segments@) =~= Seq::<Seq<char>>::empty());
    }
    for piece in it: pieces
        invariant
            all == texts(it.seq()),
            texts(segments@) == non_empty(all.take(it.index() as int)),
    {
        proof {
            reveal(Seq::filter);
        }
        let ghost i = it.index() as int;
        let ghost before = texts(segments@);
        assert(all.take(i + 1).drop_last() =~= all.take(i));
        assert(all.take(i + 1).last() == piece@);
        if piece.as_str().unicode_len() > 0 {
            segments.push(piece);
            assert(texts(segments@) =~= before.push(piece@));
        }
    }
    assert(all.take(all.len() as int) =~= all);
    segments
}

/// The texts one behind the other, with `/` before each.
pub open spec fn rooted(segments: Seq<Seq<char>>) -> Seq<char>
    decreases segments.len(),
{
    if segments.len() == 0 {
        Seq::empty()
    } else {
        rooted(segments.drop_last()) + seq!['/'] + segments.last()
    }
}

/// The path in the form in which the routes are written: a `/` before
/// each segment, and `/` alone where there is no segment.
pub open spec fn canonical(path: Seq<char>) -> Seq<char> {
    if segments_of(path).len() == 0 {
        seq!['/']
    } else {
        rooted(segments_of(path))
    }
}

fn join_rooted(segments: &Vec<String>) -> (joined: String)
    ensures
        joined@ == rooted(texts(segments@)),
{
    let mut joined = String::new();
    let ghost all = texts(segments@);
    let mut i: usize = 0;
    proof {
        reveal_strlit("/");
        assert(all.take(0) =~= Seq::<Seq<char>>::empty());
    }
    while i < segments.len()
        invariant
            i <= segments@.len(),
            all == texts(segments@),
            "/"@ == seq!['/'],
            joined@ == rooted(all.take(i as int)),
        decreases segments@.len() - i,
    {
        assert(all.take(i + 1).drop_last() =~= all.take(i as int));
        assert(all.take(i + 1).last() == segments@[i as int]@);
        joined.append("/");
        joined.append(segments[i].as_str());
        i = i + 1;
    }
    assert(all.take(all.len() as int) =~= all);
    joined
}

/// Writes a path in the form in which the routes are written.
pub fn canonical_path(path: &str) -> (written: String)
    ensures
        written@ == canonical(path@),
{
    let segments = segments(path);
    if segments.len() == 0 {
        proof {
            reveal_strlit("/");
        }
        "/".to_string()
    } else {
        join_rooted(&segments)
    }
}

/// A segment may name a file or a directory: it does not begin with `.` or
/// `*`, does not end in `:`, `>` or `<`, and holds no `/`.
pub open spec fn is_file_name(segment: Seq<char>) -> bool {
    &&& segment.len() > 0
    &&& segment[0] != '.'
    &&& segment[0] != '*'
    &&& segment.last() != ':'
    &&& segment.last() != '>'
    &&& segment.last() != '<'
    &&& !segment.contains('/')
}

/// The names that the segments of a path come to, one after the other:
/// each segment is decoded; `..` takes the last name away, if there is one;
/// any other segment has to be a file name and is one name more. There is
/// no outcome where a segment does not decode or is no file name.
pub open spec fn file_names(segments: Seq<Seq<char>>) -> Option<Seq<Seq<char>>>
    decreases segments.len(),
{
    if segments.len() == 0 {
        Some(Seq::empty())
    } else {
        match (file_names(segments.drop_last()), url_decoded(segments.last())) {
            (Some(names), Some(name)) => if name == ".."@ {
                Some(
                    if names.len() > 0 {
                        names.drop_last()
                    } else {
                        names
                    },
                )
            } else if is_file_name(name) {
                Some(names.push(name))
            } else {
                None
            },
            _ => None,
        }
    }
}

/// The path of the file that a request path names, relative to the
/// directory of the files that are served.
pub open spec fn file_of(path: Seq<char>) -> Option<Seq<char>> {
    match file_names(segments_of(path)) {
        Some(names) => Some(
            if names.len() == 0 {
                Seq::empty()
            } else {
                rooted(names).skip(1)
            },
        ),
        None => None,
    }
}

fn check_file_name(name: &str) -> (ok: bool)
    ensures
        ok == is_file_name(name@),
{
    let len = name.unicode_len();
    if len == 0 {
        return false;
    }
    let first = name.get_char(0);
    let last = name.get_char(len - 1);
    if first == '.' || first == '*' || last == ':' || last == '>' || last == '<' {
        return false;
    }
    let at = find_char(name, '/', 0, len);
    proof {
        assert(name@.skip(0) =~= name@);
        lemma_first_index_bound(name@, '/');
        if at < len {
            assert(name@[at as int] == '/') by {
                lemma_found(name@, '/');
            }
        } else {
            lemma_absent(name@, '/');
        }
    }
    at >= len
}

/// At `first_index`, where that lies within the text, stands `c`.
pub proof fn lemma_found(text: Seq<char>, c: char)
    requires
        first_index(text, c) < text.len(),
    ensures
        text[first_index(text, c) as int] == c,
    decreases text.len(),
{
    if text.len() > 0 && text[0] != c {
        lemma_found(text.skip(1), c);
        assert(text.skip(1)[first_index(text.skip(1), c) as int] == text[first_index(text, c) as int]);
    }
}

/// Where `first_index` is the end of the text, `c` stands nowhere in it.
pub proof fn lemma_absent(text: Seq<char>, c: char)
    requires
        first_index(text, c) >= text.len(),
    ensures
        !text.contains(c),
    decreases text.len(),
{
    if text.len() > 0 {
        lemma_absent(text.skip(1), c);
        if text.contains(c) {
            let i = choose|i: int| 0 <= i < text.len() && text[i] == c;
            assert(text.skip(1)[i - 1] == c);
        }
    }
}

/// The file that a request path names, relative to the directory of the
/// files that are served; `None` where it names none.
pub fn file_path(path: &str) -> (file: Option<String>)
    ensures
        opt_text(file) == file_of(path@),
{
    let segments = segments(path);
    let ghost all = texts(segments@);
    let mut names: Vec<String> = Vec::new();
    let mut i: usize = 0;
    proof {
        assert(all.take(0) =~= Seq::<Seq<char>>::empty());
        assert(texts(names@) =~= Seq::<Seq<char>>::empty());
    }
    while i < segments.len()
        invariant
            i <= segments@.len(),
            all == texts(segments@),
            all == segments_of(path@),
            file_names(all.take(i as int)) == Some(texts(names@)),
        decreases segments@.len() - i,
    {
        let ghost before = texts(names@);
        assert(all.take(i + 1).drop_last() =~= all.take(i as int));
        assert(all.take(i + 1).last() == segments@[i as int]@);
        match decode_url_value(segments[i].as_str()) {
            Some(name) => {
                if same_text(name.as_str(), "..") {
                    let _ = names.pop();
                    assert(texts(names@) =~= if before.len() > 0 {
                        before.drop_last()
                    } else {
                        before
                    });
                } else if check_file_name(name.as_str()) {
                    names.push(name);
                    assert(texts(names@) =~= before.push(name@));
                } else {
                    proof {
                        lemma_file_names_stay_none(all, i + 1);
                    }
                    return None;
                }
            },
            None => {
                proof {
                    lemma_file_names_stay_none(all, i + 1);
                }
                return None;
            },
        }
        i = i + 1;
    }
    assert(all.take(all.len() as int) =~= all);
    if names.len() == 0 {
        Some(String::new())
    } else {
        let joined = join_rooted(&names);
        let len = joined.as_str().unicode_len();
        Some(joined.as_str().substring_char(1, len).to_string())
    }
}

/// Once a segment has no outcome, no longer list of segments has one.
pub proof fn lemma_file_names_stay_none(segments: Seq<Seq<char>>, k: int)
    requires
        0 <= k <= segments.len(),
        file_names(segments.take(k)) is None,
    ensures
        file_names(segments) is None,
    decreases segments.len() - k,
{
    if k < segments.len() {
        assert(segments.take(k + 1).drop_last() =~= segments.take(k));
        lemma_file_names_stay_none(segments, k + 1);
    } else {
        assert(segments.take(k) =~= segments);
    }
}

/// Every name that the segments of a path come to is a file name: none is
/// `..`, none begins with a dot, none holds a slash. So the file that a path
/// names lies below the directory from which it is served.
pub proof fn lemma_file_names_are_file_names(segments: Seq<Seq<char>>)
    requires
        file_names(segments) is Some,
    ensures
        forall|i: int|
            0 <= i < file_names(segments)->0.len() ==> is_file_name(
                #[trigger] file_names(segments)->0[i],
            ),
    decreases segments.len(),
{
    if segments.len() > 0 {
        lemma_file_names_are_file_names(segments.drop_last());
    }
}

/// A request target is its path, followed by `?` and its query where it
/// has one.
pub proof fn lemma_path_and_query(uri: Seq<char>)
    ensures
        uri == match query_of(uri) {
            Some(query) => path_of(uri) + seq!['?'] + query,
            None => path_of(uri),
        },
        !path_of(uri).contains('?'),
{
    let at = first_index(uri, '?');
    lemma_first_index_bound(uri, '?');
    if at < uri.len() {
        lemma_found(uri, '?');
        assert(uri =~= uri.take(at as int) + seq!['?'] + uri.skip(at as int + 1));
    } else {
        assert(uri.take(at as int) =~= uri);
    }
    lemma_first_index_bound(path_of(uri), '?');
    assert(first_index(path_of(uri), '?') >= path_of(uri).len()) by {
        lemma_prefix_free(uri, '?');
    }
    lemma_absent(path_of(uri), '?');
}

/// What stands before the first `c` holds no `c`.
pub proof fn lemma_prefix_free(text: Seq<char>, c: char)
    ensures
        first_index(text.take(first_index(text, c) as int), c) == first_index(text, c),
    decreases text.len(),
{
    lemma_first_index_bound(text, c);
    let at = first_index(text, c);
    if text.len() > 0 && text[0] != c {
        let rest = text.skip(1);
        lemma_prefix_free(rest, c);
        lemma_first_index_bound(rest, c);
        let inner = first_index(rest, c);
        assert(text.take(at as int).skip(1) =~= rest.take(inner as int));
        assert(text.take(at as int)[0] == text[0]);
    } else {
        assert(text.take(0).len() == 0);
    }
}

} // verus!
