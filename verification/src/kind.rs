//! Image containers, and how a file name tells which one a file holds.
//!
//! A file counts as an image when the extension of its name is one of
//! `jpg`, `jpeg`, `png`, `gif`, `bmp`, `webp`, in lower case. The extension
//! is what follows the last dot of the name; a name without a dot, or whose
//! only dot is its first character, has none.

use vstd::prelude::*;

verus! {

/// The containers that the slideshow shows.
#[derive(Clone, Copy, Debug, PartialEq, Eq, Structural)]
pub enum ImageKind {
    Jpeg,
    Png,
    Gif,
    Bmp,
    WebP,
}

/// The index of the last `.` in `name`, or -1 where it holds none.
pub open spec fn last_dot(name: Seq<char>) -> int
    decreases name.len(),
{
    if name.len() == 0 {
        -1
    } else if name.last() == '.' {
        name.len() - 1
    } else {
        last_dot(name.drop_last())
    }
}

/// The extension of a file name, without its dot: the part after the last
/// dot. There is none where the name holds no dot, where its only dot comes
/// first (a hidden file), and for the name `..`.
pub open spec fn extension(name: Seq<char>) -> Option<Seq<char>> {
    if last_dot(name) <= 0 || name == seq!['.', '.'] {
        None
    } else {
        Some(name.skip(last_dot(name) + 1))
    }
}

/// The container that an extension stands for, if it is a supported one.
pub open spec fn kind_of_extension(ext: Seq<char>) -> Option<ImageKind> {
    if ext == "jpg"@ || ext == "jpeg"@ {
        Some(ImageKind::Jpeg)
    } else if ext == "png"@ {
        Some(ImageKind::Png)
    } else if ext == "gif"@ {
        Some(ImageKind::Gif)
    } else if ext == "bmp"@ {
        Some(ImageKind::Bmp)
    } else if ext == "webp"@ {
        Some(ImageKind::WebP)
    } else {
        None
    }
}

/// The container that a file name announces, if it is a supported one.
pub open spec fn kind_of_file_name(name: Seq<char>) -> Option<ImageKind> {
    match extension(name) {
        Some(ext) => kind_of_extension(ext),
        None => None,
    }
}

/// What `last_dot` finds: a dot with no dot after it, or -1 and no dot at all.
pub proof fn lemma_last_dot(name: Seq<char>)
    ensures
        -1 <= last_dot(name) < name.len(),
        last_dot(name) >= 0 ==> name[last_dot(name)] == '.',
        forall|j: int| last_dot(name) < j < name.len() ==> name[j] != '.',
    decreases name.len(),
{
    if name.len() > 0 && name.last() != '.' {
        let front = name.drop_last();
        lemma_last_dot(front);
        assert forall|j: int| last_dot(name) < j < name.len() implies name[j] != '.' by {
            if j < front.len() {
                assert(front[j] == name[j]);
            }
        }
    }
}

/// A dot that no dot follows is the last dot.
pub proof fn lemma_last_dot_found(name: Seq<char>, dot: int)
    requires
        0 <= dot < name.len(),
        name[dot] == '.',
        forall|j: int| dot < j < name.len() ==> name[j] != '.',
    ensures
        last_dot(name) == dot,
{
    lemma_last_dot(name);
}

/// A name that holds no dot has no last dot.
pub proof fn lemma_last_dot_absent(name: Seq<char>)
    requires
        forall|j: int| 0 <= j < name.len() ==> name[j] != '.',
    ensures
        last_dot(name) == -1,
{
    lemma_last_dot(name);
}

/// A name with an extension is its stem, a dot and the extension, and the
/// extension holds no dot.
pub proof fn lemma_extension_splits(name: Seq<char>)
    requires
        extension(name) is Some,
    ensures
        name == name.take(last_dot(name)) + seq!['.'] + extension(name).unwrap(),
        name.take(last_dot(name)).len() > 0,
        !extension(name).unwrap().contains('.'),
{
    lemma_last_dot(name);
    let dot = last_dot(name);
    let ext = extension(name).unwrap();
    assert(name =~= name.take(dot) + seq!['.'] + ext);
    assert forall|j: int| 0 <= j < ext.len() implies ext[j] != '.' by {
        assert(ext[j] == name[dot + 1 + j]);
    }
}

/// The supported extensions are exactly these six words.
pub proof fn lemma_supported_extensions(ext: Seq<char>)
    ensures
        kind_of_extension(ext) is Some <==> (ext == seq!['j', 'p', 'g'] || ext == seq![
            'j',
            'p',
            'e',
            'g',
        ] || ext == seq!['p', 'n', 'g'] || ext == seq!['g', 'i', 'f'] || ext == seq!['b', 'm', 'p']
            || ext == seq!['w', 'e', 'b', 'p']),
{
    reveal_words();
}

/// The characters of the six supported extensions.
proof fn reveal_words()
    ensures
        "jpg"@ =~= seq!['j', 'p', 'g'],
        "jpeg"@ =~= seq!['j', 'p', 'e', 'g'],
        "png"@ =~= seq!['p', 'n', 'g'],
        "gif"@ =~= seq!['g', 'i', 'f'],
        "bmp"@ =~= seq!['b', 'm', 'p'],
        "webp"@ =~= seq!['w', 'e', 'b', 'p'],
{
    reveal_strlit("jpg");
    reveal_strlit("jpeg");
    reveal_strlit("png");
    reveal_strlit("gif");
    reveal_strlit("bmp");
    reveal_strlit("webp");
}

/// The characters of `text`, one by one.
fn chars_of(text: &str) -> (chars: Vec<char>)
    ensures
        chars@ == text@,
{
    let mut chars: Vec<char> = Vec::new();
    let it = text.chars();
    for c in iter: it
        invariant
            chars@ == iter.seq().take(iter.index() as int),
            iter.seq() == text@,
    {
        chars.push(c);
    }
    chars
}

/// Where the extension of `name` starts, if it has one.
fn extension_start(name: &Vec<char>) -> (start: Option<usize>)
    ensures
        start is Some <==> extension(name@) is Some,
        start matches Some(s) ==> s == last_dot(name@) + 1 && s <= name.len(),
{
    let mut i: usize = name.len();
    while i > 0
        invariant
            i <= name.len(),
            forall|j: int| i <= j < name.len() ==> name@[j] != '.',
        decreases i,
    {
        if name[i - 1] == '.' {
            proof {
                lemma_last_dot_found(name@, i - 1);
            }
            if i == 1 || (name.len() == 2 && name[0] == '.') {
                assert(i == 2 ==> name@ =~= seq!['.', '.']);
                return None;
            }
            assert(name@ != seq!['.', '.']) by {
                if name@ == seq!['.', '.'] {
                    assert(seq!['.', '.'][0] == '.');
                }
            }
            return Some(i);
        }
        i -= 1;
    }
    proof {
        lemma_last_dot_absent(name@);
    }
    None
}

/// Whether `name` from `start` on is the three characters `a`, `b`, `c`.
fn tail_is_3(name: &Vec<char>, start: usize, a: char, b: char, c: char) -> (same: bool)
    requires
        start <= name.len(),
    ensures
        same == (name@.skip(start as int) == seq![a, b, c]),
{
    let same = name.len() - start == 3 && name[start] == a && name[start + 1] == b && name[start
        + 2] == c;
    proof {
        let tail = name@.skip(start as int);
        if same {
            assert(tail =~= seq![a, b, c]);
        } else if tail == seq![a, b, c] {
            assert(tail.len() == 3);
            assert(tail[0] == a && tail[1] == b && tail[2] == c);
        }
    }
    same
}

/// Whether `name` from `start` on is the four characters `a`, `b`, `c`, `d`.
fn tail_is_4(name: &Vec<char>, start: usize, a: char, b: char, c: char, d: char) -> (same: bool)
    requires
        start <= name.len(),
    ensures
        same == (name@.skip(start as int) == seq![a, b, c, d]),
{
    let same = name.len() - start == 4 && name[start] == a && name[start + 1] == b && name[start
        + 2] == c && name[start + 3] == d;
    proof {
        let tail = name@.skip(start as int);
        if same {
            assert(tail =~= seq![a, b, c, d]);
        } else if tail == seq![a, b, c, d] {
            assert(tail.len() == 4);
            assert(tail[0] == a && tail[1] == b && tail[2] == c && tail[3] == d);
        }
    }
    same
}

/// The container that the characters of `name` from `start` on stand for.
fn kind_of_tail(name: &Vec<char>, start: usize) -> (kind: Option<ImageKind>)
    requires
        start <= name.len(),
    ensures
        kind == kind_of_extension(name@.skip(start as int)),
{
    proof {
        reveal_words();
    }
    if tail_is_3(name, start, 'j', 'p', 'g') || tail_is_4(name, start, 'j', 'p', 'e', 'g') {
        Some(ImageKind::Jpeg)
    } else if tail_is_3(name, start, 'p', 'n', 'g') {
        Some(ImageKind::Png)
    } else if tail_is_3(name, start, 'g', 'i', 'f') {
        Some(ImageKind::Gif)
    } else if tail_is_3(name, start, 'b', 'm', 'p') {
        Some(ImageKind::Bmp)
    } else if tail_is_4(name, start, 'w', 'e', 'b', 'p') {
        Some(ImageKind::WebP)
    } else {
        None
    }
}

/// The extension of the file name `name`, as its characters.
pub fn extension_of(name: &str) -> (ext: Option<Vec<char>>)
    ensures
        ext is Some <==> extension(name@) is Some,
        ext matches Some(e) ==> e@ == extension(name@).unwrap(),
{
    let chars = chars_of(name);
    match extension_start(&chars) {
        Some(start) => {
            let mut ext: Vec<char> = Vec::new();
            let mut i: usize = start;
            while i < chars.len()
                invariant
                    start <= i <= chars.len(),
                    ext@ == chars@.subrange(start as int, i as int),
                decreases chars.len() - i,
            {
                ext.push(chars[i]);
                i += 1;
            }
            assert(ext@ =~= chars@.skip(start as int));
            Some(ext)
        },
        None => None,
    }
}

impl ImageKind {
    /// The container that the extension `ext` stands for; `None` for every
    /// word but the six supported ones.
    pub fn from_extension(ext: &str) -> (kind: Option<ImageKind>)
        ensures
            kind == kind_of_extension(ext@),
    {
        let chars = chars_of(ext);
        assert(chars@.skip(0) =~= chars@);
        kind_of_tail(&chars, 0)
    }

    /// The container that the file name `name` announces by its extension;
    /// `None` where the name has no extension or an unsupported one.
    pub fn from_file_name(name: &str) -> (kind: Option<ImageKind>)
        ensures
            kind == kind_of_file_name(name@),
    {
        let chars = chars_of(name);
        match extension_start(&chars) {
            Some(start) => kind_of_tail(&chars, start),
            None => None,
        }
    }
}

} // verus!
