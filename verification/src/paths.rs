//! File names and output locations: how a name divides into stem and
//! extension, and where the cropped copy of a file goes.

use vstd::prelude::*;

verus! {

/// The position of the last `.` in `name`, or `-1` if there is none.
pub open spec fn last_dot(name: Seq<char>) -> int
    decreases name.len(),
{
    if name.len() == 0 {
        -1
    } else if name.last() == '.' {
        name.len() - 1
    } else {
        last_dot(name.drop_last())
    }
}

/// `last_dot` finds a dot after which no dot follows, and reports `-1` only
/// for a name without dots.
pub proof fn lemma_last_dot(name: Seq<char>)
    ensures
        -1 <= last_dot(name) < name.len(),
        last_dot(name) >= 0 ==> name[last_dot(name)] == '.',
        forall|i: int| last_dot(name) < i < name.len() ==> name[i] != '.',
    decreases name.len(),
{
    if name.len() > 0 && name.last() != '.' {
        let rest = name.drop_last();
        lemma_last_dot(rest);
        assert forall|i: int| last_dot(name) < i < name.len() implies name[i] != '.' by {
            if i < rest.len() {
                assert(rest[i] == name[i]);
            }
        }
    }
}

/// A dot after which no dot follows is the last dot.
pub proof fn lemma_last_dot_is(name: Seq<char>, at: int)
    requires
        0 <= at < name.len(),
        name[at] == '.',
        forall|i: int| at < i < name.len() ==> name[i] != '.',
    ensures
        last_dot(name) == at,
    decreases name.len(),
{
    if name.last() != '.' {
        lemma_last_dot_is(name.drop_last(), at);
    }
}

/// The extension of a file name: what follows its last dot. A name without
/// a dot, or whose only dot comes first, has none.
pub open spec fn extension_of(name: Seq<char>) -> Option<Seq<char>> {
    if last_dot(name) <= 0 {
        None
    } else {
        Some(name.subrange(last_dot(name) + 1, name.len() as int))
    }
}

/// The stem of a file name: what precedes its last dot, or the whole name
/// where it has no extension.
pub open spec fn stem_of(name: Seq<char>) -> Seq<char> {
    if last_dot(name) <= 0 {
        name
    } else {
        name.subrange(0, last_dot(name))
    }
}

/// Finds the last dot of a name.
fn find_last_dot(name: &str) -> (r: Option<usize>)
    ensures
        match r {
            Some(i) => i == last_dot(name@),
            None => last_dot(name@) == -1,
        },
{
    let length: usize = name.unicode_len();
    let mut found: Option<usize> = None;
    let mut at: usize = 0;
    for c in it: name.chars()
        invariant
            it.seq() == name@,
            at == it.index(),
            length == name@.len(),
            match found {
                Some(i) => i == last_dot(name@.take(at as int)),
                None => last_dot(name@.take(at as int)) == -1,
            },
    {
        assert(name@.take(at + 1).drop_last() =~= name@.take(at as int));
        if c == '.' {
            found = Some(at);
        }
        at = at + 1;
    }
    assert(name@.take(at as int) =~= name@);
    found
}

/// Takes the extension off a file name, if it has one.
pub fn file_extension<'a>(name: &'a str) -> (r: Option<&'a str>)
    ensures
        r.deep_view() == extension_of(name@),
{
    let length: usize = name.unicode_len();
    match find_last_dot(name) {
        Some(dot) => {
            if dot == 0 {
                None
            } else {
                proof {
                    lemma_last_dot(name@);
                }
                Some(name.substring_char(dot + 1, length))
            }
        },
        None => None,
    }
}

/// Takes the stem off a file name.
pub fn file_stem<'a>(name: &'a str) -> (r: &'a str)
    ensures
        r@ == stem_of(name@),
{
    match find_last_dot(name) {
        Some(dot) => {
            if dot == 0 {
                name
            } else {
                proof {
                    lemma_last_dot(name@);
                }
                name.substring_char(0, dot)
            }
        },
        None => name,
    }
}

/// The extension of the file that a path names, counting a missing file
/// name and a missing extension each as the empty text.
pub open spec fn extension_or_empty(name: Option<Seq<char>>) -> Seq<char> {
    match name {
        Some(name) => match extension_of(name) {
            Some(extension) => extension,
            None => Seq::<char>::empty(),
        },
        None => Seq::<char>::empty(),
    }
}

/// The name under which the cropped copy of a file is stored: the stem,
/// `_cropped.`, then the extension of the file. A missing file name, and a
/// missing extension, each count as empty.
pub open spec fn cropped_name(name: Option<Seq<char>>) -> Seq<char> {
    match name {
        Some(file) => stem_of(file) + "_cropped."@ + extension_or_empty(name),
        None => "_cropped."@,
    }
}

/// The name of a cropped copy has the extension of the input file, and a stem
/// that ends in `_cropped`.
pub proof fn lemma_cropped_name_parts(name: Option<Seq<char>>)
    ensures
        extension_of(cropped_name(name)) == Some(extension_or_empty(name)),
        stem_of(cropped_name(name)) + "."@ + extension_or_empty(name) == cropped_name(name),
        stem_of(cropped_name(name)) == match name {
            Some(name) => stem_of(name) + "_cropped"@,
            None => "_cropped"@,
        },
{
    reveal_strlit("_cropped.");
    reveal_strlit("_cropped");
    reveal_strlit(".");
    let stem = match name {
        Some(name) => stem_of(name),
        None => Seq::<char>::empty(),
    };
    let kept = extension_or_empty(name);
    let copy = cropped_name(name);
    assert(copy =~= stem + "_cropped."@ + kept);
    let dot: int = stem.len() as int + 8;
    if name is Some {
        lemma_last_dot(name->0);
    }
    assert forall|i: int| dot < i < copy.len() implies copy[i] != '.' by {
        assert(copy[i] == kept[i - dot - 1]);
    }
    lemma_last_dot_is(copy, dot);
    assert(copy.subrange(dot + 1, copy.len() as int) =~= kept);
    assert(copy.subrange(0, dot) =~= stem + "_cropped"@);
    assert(copy.subrange(0, dot) + "."@ + kept =~= copy);
}

/// Builds the file name of a cropped copy from the name of the input file.
pub fn cropped_file_name(name: Option<&str>) -> (r: String)
    ensures
        r@ == cropped_name(name.deep_view()),
{
    match name {
        Some(name) => {
            let mut text = String::from_str(file_stem(name));
            text.append("_cropped.");
            match file_extension(name) {
                Some(extension) => {
                    text.append(extension);
                },
                None => {
                    assert(text@ + Seq::<char>::empty() =~= text@);
                },
            }
            text
        },
        None => String::from_str("_cropped."),
    }
}

/// The directory that receives a cropped copy: the override where one is
/// given, else the directory of the input file, else the current directory.
pub open spec fn target_directory(
    output_dir: Option<Seq<char>>,
    parent: Option<Seq<char>>,
) -> Seq<char> {
    match output_dir {
        Some(dir) => dir,
        None => match parent {
            Some(dir) => dir,
            None => "."@,
        },
    }
}

/// Picks the directory for a cropped copy.
pub fn output_directory(output_dir: Option<&str>, parent: Option<&str>) -> (r: String)
    ensures
        r@ == target_directory(output_dir.deep_view(), parent.deep_view()),
{
    match output_dir {
        Some(dir) => String::from_str(dir),
        None => match parent {
            Some(dir) => String::from_str(dir),
            None => String::from_str("."),
        },
    }
}

/// The last component of `path`, where it names a file or directory: what
/// `Path::file_name` finds in it. How a path divides into components is the
/// affair of the platform the library is built for; for that platform it is
/// a function of the path alone.
pub uninterp spec fn path_file_name(path: Seq<char>) -> Option<Seq<char>>;

/// `path` without its last component, where it has one: what `Path::parent`
/// finds in it, by the same division.
pub uninterp spec fn path_parent(path: Seq<char>) -> Option<Seq<char>>;

/// `directory` extended by `name` in the platform's path syntax: what
/// `Path::join` makes of the two.
pub uninterp spec fn path_join(directory: Seq<char>, name: Seq<char>) -> Seq<char>;

/// `Path::file_name`, on a path given as text: the file name it finds, as
/// text. The result depends on the path alone; nothing is claimed of what
/// it is for a given path.
#[verifier::external_body]
pub(crate) fn file_name(path: &str) -> (r: Option<String>)
    ensures
        r.deep_view() == path_file_name(path@),
{
    match std::path::Path::new(path).file_name() {
        Some(name) => name.to_str().map(str::to_owned),
        None => None,
    }
}

/// `Path::parent`, on a path given as text: the parent it finds, as text.
/// The result depends on the path alone; nothing is claimed of what it is
/// for a given path.
#[verifier::external_body]
pub(crate) fn parent(path: &str) -> (r: Option<String>)
    ensures
        r.deep_view() == path_parent(path@),
{
    match std::path::Path::new(path).parent() {
        Some(dir) => dir.to_str().map(str::to_owned),
        None => None,
    }
}

/// `Path::join`, on a directory and a name given as text: the joined path,
/// as text. The result depends on the two alone; nothing is claimed of what
/// it is for a given pair.
#[verifier::external_body]
pub(crate) fn join(directory: &str, name: &str) -> (r: String)
    ensures
        r@ == path_join(directory@, name@),
{
    std::path::Path::new(directory).join(name).to_string_lossy().into_owned()
}

/// Where a cropped copy is written: a directory, a file name in it, and the
/// two as one path in the platform's syntax.
#[derive(Debug, Clone, PartialEq, Eq)]
pub struct OutputPath {
    pub directory: String,
    pub file_name: String,
    pub path: String,
}

impl OutputPath {
    /// This location is the one derived from an input with file name
    /// `name` in directory `parent`, under the override `output_dir`.
    pub open spec fn derived_from(
        self,
        name: Option<Seq<char>>,
        parent: Option<Seq<char>>,
        output_dir: Option<Seq<char>>,
    ) -> bool {
        &&& self.file_name@ == cropped_name(name)
        &&& self.directory@ == target_directory(output_dir, parent)
    }

    /// This location is the output for the input at `input_path` under the
    /// override `output_dir`: derived from the file name and the parent that
    /// the path has, with the directory and the file name joined into its
    /// path.
    pub open spec fn output_for(self, input_path: Seq<char>, output_dir: Option<Seq<char>>) -> bool {
        &&& self.derived_from(path_file_name(input_path), path_parent(input_path), output_dir)
        &&& self.path@ == path_join(self.directory@, self.file_name@)
    }
}

/// Derives the output location for an input path: the file name becomes
/// `{stem}_cropped.{extension}`, placed in `output_dir` if given, else next
/// to the input, else in the current directory.
pub fn build_output_path(input_path: &str, output_dir: Option<&str>) -> (r: OutputPath)
    ensures
        r.output_for(input_path@, output_dir.deep_view()),
{
    let name = file_name(input_path);
    let file_name = match &name {
        Some(name) => cropped_file_name(Some(name.as_str())),
        None => cropped_file_name(None),
    };
    let directory = match output_dir {
        Some(dir) => output_directory(Some(dir), None),
        None => {
            let parent = parent(input_path);
            match &parent {
                Some(dir) => output_directory(None, Some(dir.as_str())),
                None => output_directory(None, None),
            }
        },
    };
    let path = join(directory.as_str(), file_name.as_str());
    OutputPath { directory, file_name, path }
}

} // verus!
