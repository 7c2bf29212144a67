//! The source pager: which file is loaded, how many lines it has, and where
//! the viewport stands. Opening a file is left to the caller; the pager says
//! when that is needed and takes what the opening found.

use vstd::prelude::*;

verus! {

#[verifier::external_type_specification]
#[verifier::external_body]
pub struct ExIoError(std::io::Error);

/// Why a file could not be shown.
#[derive(Debug)]
pub enum PagerShowError {
    CouldNotOpenFile(std::io::Error),
    LineDoesNotExist(usize),
}

/// What opening a file found: its number of lines and the name of the syntax
/// definition that matches it, if any does.
#[derive(Debug)]
pub struct OpenedFile {
    pub line_count: usize,
    pub syntax: Option<String>,
}

/// The name of the syntax used where none matches a file.
pub open spec fn plain_text() -> Seq<char> {
    "Plain Text"@
}

/// The content of a pager, as values.
pub struct Loaded {
    pub path: Seq<char>,
    pub line_count: nat,
    pub syntax: Seq<char>,
}

/// A pager, as values.
pub struct PagerState {
    pub content: Option<Loaded>,
    pub line: nat,
}

/// The content made from what opening `path` found.
pub open spec fn loaded_from(path: Seq<char>, opened: OpenedFile) -> Loaded {
    Loaded {
        path,
        line_count: opened.line_count as nat,
        syntax: match opened.syntax {
            Some(name) => name@,
            None => plain_text(),
        },
    }
}

/// A file must be opened unless it is the one already loaded.
pub open spec fn needs_reload(s: PagerState, path: Seq<char>) -> bool {
    match s.content {
        Some(loaded) => loaded.path != path,
        None => true,
    }
}

/// The pager after new content replaced the old: the viewport is at the top.
pub open spec fn after_load(path: Seq<char>, opened: OpenedFile) -> PagerState {
    PagerState { content: Some(loaded_from(path, opened)), line: 0 }
}

/// Whether the content has the line.
pub open spec fn has_line(s: PagerState, line: nat) -> bool {
    s.content matches Some(loaded) && line < loaded.line_count
}

/// The pager after a jump: the viewport moves only to a line that exists.
pub open spec fn after_jump(s: PagerState, line: nat) -> PagerState {
    if has_line(s, line) {
        PagerState { content: s.content, line }
    } else {
        s
    }
}

/// The pager after `path` was shown at `line`, where `fresh` is what opening
/// the file found. A file that is already loaded is not loaded again,
/// whatever `fresh` holds; without `fresh` nothing is loaded.
pub open spec fn after_show(s: PagerState, path: Seq<char>, line: nat, fresh: Option<OpenedFile>)
    -> PagerState {
    if needs_reload(s, path) {
        match fresh {
            Some(file) => after_jump(after_load(path, file), line),
            None => s,
        }
    } else {
        after_jump(s, line)
    }
}

/// What `show` leaves behind once the file is at hand: the pager after the
/// show, success exactly if the line exists, and otherwise the line as the
/// error.
pub open spec fn positioned(
    before: PagerState,
    after: PagerState,
    path: Seq<char>,
    line: usize,
    fresh: Option<OpenedFile>,
    result: Result<(), PagerShowError>,
) -> bool {
    &&& after == after_show(before, path, line as nat, fresh)
    &&& result is Ok <==> has_line(after, line as nat)
    &&& result is Err ==> result == Err::<(), PagerShowError>(
        PagerShowError::LineDoesNotExist(line),
    )
}

struct LoadedFile {
    path: String,
    line_count: usize,
    syntax: String,
}

pub struct SourcePager {
    content: Option<LoadedFile>,
    line: usize,
}

impl View for SourcePager {
    type V = PagerState;

    closed spec fn view(&self) -> PagerState {
        PagerState {
            content: match self.content {
                Some(file) => Some(
                    Loaded {
                        path: file.path@,
                        line_count: file.line_count as nat,
                        syntax: file.syntax@,
                    },
                ),
                None => None,
            },
            line: self.line as nat,
        }
    }
}

impl SourcePager {
    /// A pager with nothing loaded.
    pub fn new() -> (pager: Self)
        ensures
            pager@ == (PagerState { content: None, line: 0 }),
    {
        SourcePager { content: None, line: 0 }
    }

    /// Whether showing `path` must open it first.
    pub fn must_reload(&self, path: &String) -> (reload: bool)
        ensures
            reload == needs_reload(self@, path@),
    {
        match &self.content {
            Some(file) => !(file.path == *path),
            None => true,
        }
    }

    /// Takes the outcome of opening `path`: new content replaces the old, or
    /// the failure is handed back and the pager keeps what it has.
    pub fn load(&mut self, path: String, opened: Result<OpenedFile, std::io::Error>) -> (result:
        Result<(), std::io::Error>)
        ensures
            match opened {
                Ok(file) => result is Ok && final(self)@ == after_load(path@, file),
                Err(e) => result == Err::<(), std::io::Error>(e) && final(self)@ == old(self)@,
            },
    {
        match opened {
            Ok(file) => {
                let syntax = match file.syntax {
                    Some(name) => name,
                    None => "Plain Text".to_owned(),
                };
                self.content = Some(LoadedFile { path, line_count: file.line_count, syntax });
                self.line = 0;
                Ok(())
            },
            Err(e) => Err(e),
        }
    }

    /// Moves the viewport to a line of the content, if there is such a line.
    pub fn go_to_line(&mut self, line: usize) -> (found: bool)
        ensures
            found == has_line(old(self)@, line as nat),
            final(self)@ == after_jump(old(self)@, line as nat),
    {
        match &self.content {
            Some(file) => {
                if line < file.line_count {
                    self.line = line;
                    true
                } else {
                    false
                }
            },
            None => false,
        }
    }

    /// Shows `path` at the zero-based `line`. The file is loaded from
    /// `opened` only if it is not the one already loaded; otherwise `opened`
    /// is not looked at.
    pub fn show(
        &mut self,
        path: String,
        line: usize,
        opened: Option<Result<OpenedFile, std::io::Error>>,
    ) -> (result: Result<(), PagerShowError>)
        requires
            needs_reload(old(self)@, path@) ==> opened is Some,
        ensures
            match opened {
                Some(Err(e)) if needs_reload(old(self)@, path@) => {
                    &&& result == Err::<(), PagerShowError>(PagerShowError::CouldNotOpenFile(e))
                    &&& final(self)@ == old(self)@
                },
                Some(Ok(file)) => positioned(
                    old(self)@,
                    final(self)@,
                    path@,
                    line,
                    Some(file),
                    result,
                ),
                _ => positioned(old(self)@, final(self)@, path@, line, None, result),
            },
    {
        if self.must_reload(&path) {
            match opened {
                Some(outcome) => match self.load(path, outcome) {
                    Ok(()) => {},
                    Err(e) => {
                        return Err(PagerShowError::CouldNotOpenFile(e));
                    },
                },
                None => {},
            }
        }
        if self.go_to_line(line) {
            Ok(())
        } else {
            Err(PagerShowError::LineDoesNotExist(line))
        }
    }

    /// Moves the viewport one line down, unless it shows the last line.
    pub fn scroll_forwards(&mut self) -> (moved: bool)
        ensures
            moved == has_line(old(self)@, old(self)@.line + 1),
            final(self)@ == after_jump(old(self)@, old(self)@.line + 1),
    {
        if self.line < usize::MAX {
            let next: usize = self.line + 1;
            self.go_to_line(next)
        } else {
            false
        }
    }

    /// Moves the viewport one line up, unless it shows the first line.
    pub fn scroll_backwards(&mut self) -> (moved: bool)
        ensures
            moved == (old(self)@.line > 0 && has_line(old(self)@, (old(self)@.line - 1) as nat)),
            moved ==> final(self)@ == after_jump(old(self)@, (old(self)@.line - 1) as nat),
            !moved ==> final(self)@ == old(self)@,
    {
        if self.line > 0 {
            let previous: usize = self.line - 1;
            self.go_to_line(previous)
        } else {
            false
        }
    }

    /// The path of the loaded file, if one is loaded.
    pub fn loaded_path(&self) -> (path: Option<String>)
        ensures
            match path {
                Some(p) => self@.content matches Some(loaded) && loaded.path == p@,
                None => self@.content is None,
            },
    {
        match &self.content {
            Some(file) => Some(file.path.clone()),
            None => None,
        }
    }

    /// The syntax bound to the loaded file, if one is loaded.
    pub fn syntax_name(&self) -> (name: Option<String>)
        ensures
            match name {
                Some(n) => self@.content matches Some(loaded) && loaded.syntax == n@,
                None => self@.content is None,
            },
    {
        match &self.content {
            Some(file) => Some(file.syntax.clone()),
            None => None,
        }
    }

    /// The zero-based line at the top of the viewport.
    pub fn current_line(&self) -> (line: usize)
        ensures
            line as nat == self@.line,
    {
        self.line
    }
}

/// After a file was shown, showing the same file again opens nothing and
/// keeps the content; showing any other file needs it opened and replaces
/// the content.
pub proof fn lemma_reload_only_on_path_change(
    s: PagerState,
    path: Seq<char>,
    line: nat,
    fresh: OpenedFile,
    next_path: Seq<char>,
    next_line: nat,
    next_fresh: OpenedFile,
)
    ensures
        ({
            let shown = after_show(s, path, line, Some(fresh));
            let again = after_show(shown, next_path, next_line, Some(next_fresh));
            &&& needs_reload(shown, next_path) <==> next_path != path
            &&& next_path == path ==> again.content == shown.content
            &&& next_path != path ==> again.content == Some(loaded_from(next_path, next_fresh))
        }),
{
}

/// Showing a line that the file does not have leaves the viewport where it
/// was, or at the top of a file that had to be loaded.
pub proof fn lemma_missing_line_keeps_viewport(
    s: PagerState,
    path: Seq<char>,
    line: nat,
    fresh: OpenedFile,
)
    requires
        !has_line(after_show(s, path, line, Some(fresh)), line),
    ensures
        after_show(s, path, line, Some(fresh)).line == (if needs_reload(s, path) {
            0
        } else {
            s.line
        }),
        !needs_reload(s, path) ==> after_show(s, path, line, Some(fresh)) == s,
{
}

} // verus!
