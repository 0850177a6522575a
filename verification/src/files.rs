//! A control group's directory as the caller read it.

use vstd::prelude::*;
use vstd::string::StringExecFns;
use crate::error::StatsError;
use crate::error::StatsErrorView;

verus! {

/// One file that could be read, by its name inside the directory.
#[derive(Debug, Clone, PartialEq, Eq)]
pub struct CgroupFile {
    pub name: String,
    pub content: String,
}

/// The directory of one control group: its path and the files in it that
/// could be read. A file that is not listed counts as missing.
#[derive(Debug, Clone, PartialEq, Eq)]
pub struct CgroupDir {
    pub path: String,
    pub files: Vec<CgroupFile>,
}

/// The content of the first file called `name`, if there is one.
pub open spec fn find_content(files: Seq<CgroupFile>, name: Seq<char>) -> Option<Seq<char>>
    decreases files.len(),
{
    if files.len() == 0 {
        None
    } else if files.first().name@ == name {
        Some(files.first().content@)
    } else {
        find_content(files.drop_first(), name)
    }
}

/// The path of the entry `name` of the directory `dir`.
pub open spec fn join_spec(dir: Seq<char>, name: Seq<char>) -> Seq<char> {
    dir + seq!['/'] + name
}

/// The path of the entry `name` of the directory `dir`.
pub fn join_path(dir: &str, name: &str) -> (r: String)
    ensures
        r@ == join_spec(dir@, name@),
{
    proof {
        reveal_strlit("/");
    }
    let r = String::from_str(dir).concat("/").concat(name);
    assert(r@ =~= join_spec(dir@, name@));
    r
}

/// A file that is added at the end is found under its name where no earlier
/// file has that name, and changes nothing else.
pub proof fn lemma_find_content_push(files: Seq<CgroupFile>, file: CgroupFile, name: Seq<char>)
    ensures
        find_content(files.push(file), name) == match find_content(files, name) {
            Some(c) => Some(c),
            None => if file.name@ == name {
                Some(file.content@)
            } else {
                None
            },
        },
    decreases files.len(),
{
    if files.len() == 0 {
        assert(files.push(file).drop_first() =~= files);
    } else {
        assert(files.push(file).drop_first() =~= files.drop_first().push(file));
        lemma_find_content_push(files.drop_first(), file, name);
    }
}

impl CgroupDir {
    /// What reading the file `name` gives.
    pub open spec fn content_of(&self, name: Seq<char>) -> Option<Seq<char>> {
        find_content(self.files@, name)
    }

    /// The path of the file `name`.
    pub open spec fn path_of(&self, name: Seq<char>) -> Seq<char> {
        join_spec(self.path@, name)
    }

    /// What reading the file `name` gives: its content, or an I/O error that
    /// holds its path.
    pub open spec fn read_spec(&self, name: Seq<char>) -> Result<Seq<char>, StatsErrorView> {
        match self.content_of(name) {
            Some(c) => Ok(c),
            None => Err(StatsErrorView::Io { path: self.path_of(name) }),
        }
    }

    /// A directory at `path` in which no file can be read.
    pub fn new(path: &str) -> (r: CgroupDir)
        ensures
            r.path@ == path@,
            r.files@ == Seq::<CgroupFile>::empty(),
    {
        CgroupDir { path: String::from_str(path), files: Vec::new() }
    }

    /// Records that the file `name` was read and held `content`. Where a file
    /// of that name is there already, the earlier one stays in force.
    pub fn add_file(&mut self, name: &str, content: &str)
        ensures
            final(self).path == old(self).path,
            final(self).files@.len() == old(self).files@.len() + 1,
            final(self).files@.drop_last() == old(self).files@,
            final(self).files@.last().name@ == name@,
            final(self).files@.last().content@ == content@,
            forall|n: Seq<char>|
                #[trigger] final(self).content_of(n) == if n == name@ && old(self).content_of(n)
                    is None {
                    Some(content@)
                } else {
                    old(self).content_of(n)
                },
    {
        let file = CgroupFile { name: String::from_str(name), content: String::from_str(content) };
        self.files.push(file);
        assert(self.files@.drop_last() =~= old(self).files@);
        assert forall|n: Seq<char>|
            #[trigger] self.content_of(n) == if n == name@ && old(self).content_of(n) is None {
                Some(content@)
            } else {
                old(self).content_of(n)
            } by {
            lemma_find_content_push(old(self).files@, file, n);
        }
    }

    /// Reads the file `name`.
    pub fn read(&self, name: &str) -> (r: Result<&String, StatsError>)
        ensures
            match r {
                Ok(c) => self.read_spec(name@) == Ok::<Seq<char>, StatsErrorView>(c@),
                Err(e) => self.read_spec(name@) == Err::<Seq<char>, StatsErrorView>(e@),
            },
    {
        let key = String::from_str(name);
        let n: usize = self.files.len();
        let mut i: usize = 0;
        assert(self.files@.subrange(0, n as int) =~= self.files@);
        while i < n
            invariant
                i <= n,
                n == self.files.len(),
                key@ == name@,
                find_content(self.files@, name@) == find_content(
                    self.files@.subrange(i as int, n as int),
                    name@,
                ),
            decreases n - i,
        {
            if self.files[i].name == key {
                return Ok(&self.files[i].content);
            }
            proof {
                assert(self.files@.subrange(i as int, n as int).drop_first()
                    =~= self.files@.subrange(i + 1, n as int));
            }
            i += 1;
        }
        Err(StatsError::Io { path: join_path(self.path.as_str(), name) })
    }
}

} // verus!
