//! The run request, the languages it may name, and what staging its files
//! leaves in the workspace.

use vstd::prelude::*;

verus! {

/// A file to place in the workspace: a relative path and its text.
pub struct FileSpec {
    pub name: String,
    pub content: String,
}

/// The language to run and the files to run it on, the first being the
/// entrypoint.
pub struct Payload {
    pub language: String,
    pub files: Vec<FileSpec>,
}

/// One request: the payload, optional hex entropy and an optional RFC 3339
/// timestamp to set the clock to.
pub struct RunRequest {
    pub payload: Payload,
    pub entropy: Option<String>,
    pub datetime: Option<String>,
}

/// The languages that can be run: one locally, one by the sibling service.
#[derive(Clone, Copy, Debug, PartialEq, Eq)]
pub enum Language {
    Python,
    Node,
}

pub open spec fn language_of(s: Seq<char>) -> Option<Language> {
    if s == "python"@ {
        Some(Language::Python)
    } else if s == "node"@ {
        Some(Language::Node)
    } else {
        None
    }
}

/// The language a tag names, if it is one that can be run.
pub fn parse_language(tag: &String) -> (r: Option<Language>)
    ensures
        r == language_of(tag@),
{
    if *tag == String::from_str("python") {
        Some(Language::Python)
    } else if *tag == String::from_str("node") {
        Some(Language::Node)
    } else {
        None
    }
}

/// The workspace after writing `files` in order: each path holds the text of
/// the last file written to it.
pub open spec fn staged(files: Seq<FileSpec>) -> Map<Seq<char>, Seq<char>>
    decreases files.len(),
{
    if files.len() == 0 {
        Map::empty()
    } else {
        staged(files.drop_last()).insert(files.last().name@, files.last().content@)
    }
}

impl FileSpec {
    pub fn new(name: &str, content: &str) -> (r: FileSpec)
        ensures
            r.name@ == name@,
            r.content@ == content@,
    {
        FileSpec { name: String::from_str(name), content: String::from_str(content) }
    }
}

impl Payload {
    /// The entrypoint's path: that of the first file, whatever follows it.
    pub fn entrypoint(&self) -> (r: Option<String>)
        ensures
            self.files@.len() == 0 <==> r is None,
            r matches Some(n) ==> n@ == self.files@[0].name@,
    {
        if self.files.len() == 0 {
            None
        } else {
            Some(self.files[0].name.clone())
        }
    }

    /// The text that the entrypoint's path holds once every file is written:
    /// a later file of the same name replaces the first one's text.
    pub fn entrypoint_content(&self) -> (r: Option<String>)
        ensures
            self.files@.len() == 0 <==> r is None,
            r matches Some(c) ==> c@ == staged(self.files@)[self.files@[0].name@],
    {
        if self.files.len() == 0 {
            return None;
        }
        let name = &self.files[0].name;
        let mut cur = self.files[0].content.clone();
        let mut i: usize = 1;
        proof {
            let s1 = self.files@.subrange(0, 1);
            assert(s1.drop_last() =~= self.files@.subrange(0, 0));
        }
        while i < self.files.len()
            invariant
                1 <= i <= self.files@.len(),
                name@ == self.files@[0].name@,
                staged(self.files@.subrange(0, i as int)).contains_key(name@),
                cur@ == staged(self.files@.subrange(0, i as int))[name@],
            decreases self.files@.len() - i,
        {
            let f = &self.files[i];
            proof {
                let next = self.files@.subrange(0, i + 1);
                assert(next.drop_last() =~= self.files@.subrange(0, i as int));
            }
            if f.name == *name {
                cur = f.content.clone();
            }
            i = i + 1;
        }
        assert(self.files@.subrange(0, i as int) =~= self.files@);
        Some(cur)
    }
}

/// The text at a path after staging is that of the last file written there.
pub proof fn lemma_staged_last_write(files: Seq<FileSpec>, j: int)
    requires
        0 <= j < files.len(),
        forall|k: int| j < k < files.len() ==> #[trigger] files[k].name@ != files[j].name@,
    ensures
        staged(files).contains_key(files[j].name@),
        staged(files)[files[j].name@] == files[j].content@,
    decreases files.len(),
{
    if j < files.len() - 1 {
        let rest = files.drop_last();
        assert(files.last().name@ != files[j].name@);
        assert forall|k: int| j < k < rest.len() implies #[trigger] rest[k].name@
            != rest[j].name@ by {
            assert(files[k].name@ != files[j].name@);
        }
        lemma_staged_last_write(rest, j);
    }
}

/// The entrypoint is the first file's path, while the text found there once
/// staging is done is that of the last file of the same path: the two come
/// apart when a later file repeats the first one's name.
pub proof fn lemma_entrypoint_path_and_text(files: Seq<FileSpec>, j: int)
    requires
        0 <= j < files.len(),
        files[j].name@ == files[0].name@,
        forall|k: int| j < k < files.len() ==> #[trigger] files[k].name@ != files[0].name@,
    ensures
        staged(files).contains_key(files[0].name@),
        staged(files)[files[0].name@] == files[j].content@,
{
    lemma_staged_last_write(files, j);
}

} // verus!
