//! The request that is sent to the service, and the results it reports.

use vstd::prelude::*;

verus! {

/// One source file of a request.
#[derive(Debug, Clone, PartialEq, Eq)]
pub struct File {
    /// The file's name, if the request gives one.
    pub name: Option<String>,
    /// The source text.
    pub content: String,
    /// The encoding of `content`, if the request names one.
    pub encoding: Option<String>,
}

/// The text held by an optional string.
pub open spec fn opt_text(o: Option<String>) -> Option<Seq<char>> {
    match o {
        Some(s) => Some(s@),
        None => None,
    }
}

impl Default for File {
    /// A file with empty content and neither name nor encoding.
    fn default() -> (r: File)
        ensures
            r.name is None,
            r.content@.len() == 0,
            r.encoding is None,
    {
        File { name: None, content: String::new(), encoding: None }
    }
}

impl File {
    /// The same file under the given name.
    pub fn set_name(self, name: &str) -> (r: File)
        ensures
            opt_text(r.name) == Some(name@),
            r.content == self.content,
            r.encoding == self.encoding,
    {
        File { name: Some(String::from_str(name)), ..self }
    }

    /// The same file with the given source text.
    pub fn set_content(self, content: &str) -> (r: File)
        ensures
            r.name == self.name,
            r.content@ == content@,
            r.encoding == self.encoding,
    {
        File { content: String::from_str(content), ..self }
    }

    /// The same file with the given encoding.
    pub fn set_encoding(self, encoding: &str) -> (r: File)
        ensures
            r.name == self.name,
            r.content == self.content,
            opt_text(r.encoding) == Some(encoding@),
    {
        File { encoding: Some(String::from_str(encoding)), ..self }
    }
}

/// A request to run code: what to run it with, on which files, with which
/// input and limits.
#[derive(Debug, Clone, PartialEq, Eq)]
pub struct Executor {
    pub language: String,
    /// The language's version; `*` stands for any.
    pub version: String,
    pub files: Vec<File>,
    pub stdin: String,
    pub args: Vec<String>,
    pub compile_timeout: Option<i64>,
    pub run_timeout: Option<i64>,
    pub compile_memory_limit: Option<i64>,
    pub run_memory_limit: Option<i64>,
}

/// The version that asks for any version of a language.
pub open spec fn any_version() -> Seq<char> {
    seq!['*']
}

/// An executor that holds nothing but what its constructor sets.
pub open spec fn is_fresh(e: Executor) -> bool {
    &&& e.language@.len() == 0
    &&& e.version@ == any_version()
    &&& e.files@.len() == 0
    &&& e.stdin@.len() == 0
    &&& e.args@.len() == 0
    &&& e.compile_timeout is None
    &&& e.run_timeout is None
    &&& e.compile_memory_limit is None
    &&& e.run_memory_limit is None
}

/// `a` and `b` agree on every field but the language.
pub open spec fn same_but_language(a: Executor, b: Executor) -> bool {
    &&& a.version == b.version
    &&& a.files == b.files
    &&& a.stdin == b.stdin
    &&& a.args == b.args
    &&& same_limits(a, b)
}

/// `a` and `b` agree on the four resource limits.
pub open spec fn same_limits(a: Executor, b: Executor) -> bool {
    &&& a.compile_timeout == b.compile_timeout
    &&& a.run_timeout == b.run_timeout
    &&& a.compile_memory_limit == b.compile_memory_limit
    &&& a.run_memory_limit == b.run_memory_limit
}

/// `a` and `b` agree on the language, the version and the limits.
pub open spec fn same_setup(a: Executor, b: Executor) -> bool {
    &&& a.language == b.language
    &&& a.version == b.version
    &&& same_limits(a, b)
}

impl Default for Executor {
    fn default() -> (r: Executor)
        ensures
            is_fresh(r),
    {
        Executor::new()
    }
}

impl Executor {
    /// An empty request for any version of an unnamed language.
    pub fn new() -> (r: Executor)
        ensures
            is_fresh(r),
    {
        let version = String::from_str("*");
        proof {
            reveal_strlit("*");
            assert(version@ =~= any_version());
        }
        Executor {
            language: String::new(),
            version,
            files: Vec::new(),
            stdin: String::new(),
            args: Vec::new(),
            compile_timeout: None,
            run_timeout: None,
            compile_memory_limit: None,
            run_memory_limit: None,
        }
    }

    /// The same request for another language.
    pub fn set_language(self, language: &str) -> (r: Executor)
        ensures
            r.language@ == language@,
            same_but_language(r, self),
    {
        Executor { language: String::from_str(language), ..self }
    }

    /// The same request for another version.
    pub fn set_version(self, version: &str) -> (r: Executor)
        ensures
            r.version@ == version@,
            r.language == self.language,
            r.files == self.files,
            r.stdin == self.stdin,
            r.args == self.args,
            same_limits(r, self),
    {
        Executor { version: String::from_str(version), ..self }
    }

    /// The same request with `file` after its files.
    pub fn add_file(self, file: File) -> (r: Executor)
        ensures
            r.files@ == self.files@.push(file),
            same_setup(r, self),
            r.stdin == self.stdin,
            r.args == self.args,
    {
        let mut s = self;
        s.files.push(file);
        s
    }

    /// The same request with `files` after its files, in their order.
    pub fn add_files(self, files: Vec<File>) -> (r: Executor)
        ensures
            r.files@ == self.files@ + files@,
            same_setup(r, self),
            r.stdin == self.stdin,
            r.args == self.args,
    {
        let mut s = self;
        let mut more = files;
        s.files.append(&mut more);
        s
    }

    /// The same request with another standard input.
    pub fn set_stdin(self, stdin: &str) -> (r: Executor)
        ensures
            r.stdin@ == stdin@,
            same_setup(r, self),
            r.files == self.files,
            r.args == self.args,
    {
        Executor { stdin: String::from_str(stdin), ..self }
    }

    /// The same request with `arg` after its arguments.
    pub fn add_arg(self, arg: &str) -> (r: Executor)
        ensures
            r.args@.len() == self.args@.len() + 1,
            r.args@.drop_last() == self.args@,
            r.args@.last()@ == arg@,
            same_setup(r, self),
            r.files == self.files,
            r.stdin == self.stdin,
    {
        let mut s = self;
        s.args.push(String::from_str(arg));
        s
    }

    /// The same request with `args` after its arguments, in their order.
    pub fn add_args(self, args: Vec<String>) -> (r: Executor)
        ensures
            r.args@ == self.args@ + args@,
            same_setup(r, self),
            r.files == self.files,
            r.stdin == self.stdin,
    {
        let mut s = self;
        let mut more = args;
        s.args.append(&mut more);
        s
    }

    /// The same request with the compile stage's time limit set to `limit`.
    pub fn set_compile_timeout(self, limit: i64) -> (r: Executor)
        ensures
            r.compile_timeout == Some(limit),
            r.run_timeout == self.run_timeout,
            r.compile_memory_limit == self.compile_memory_limit,
            r.run_memory_limit == self.run_memory_limit,
            r.language == self.language,
            r.version == self.version,
            r.files == self.files,
            r.stdin == self.stdin,
            r.args == self.args,
    {
        Executor { compile_timeout: Some(limit), ..self }
    }

    /// The same request with the run stage's time limit set to `limit`.
    pub fn set_run_timeout(self, limit: i64) -> (r: Executor)
        ensures
            r.run_timeout == Some(limit),
            r.compile_timeout == self.compile_timeout,
            r.compile_memory_limit == self.compile_memory_limit,
            r.run_memory_limit == self.run_memory_limit,
            r.language == self.language,
            r.version == self.version,
            r.files == self.files,
            r.stdin == self.stdin,
            r.args == self.args,
    {
        Executor { run_timeout: Some(limit), ..self }
    }

    /// The same request with the compile stage's memory limit set to `limit`.
    pub fn set_compile_memory_limit(self, limit: i64) -> (r: Executor)
        ensures
            r.compile_memory_limit == Some(limit),
            r.compile_timeout == self.compile_timeout,
            r.run_timeout == self.run_timeout,
            r.run_memory_limit == self.run_memory_limit,
            r.language == self.language,
            r.version == self.version,
            r.files == self.files,
            r.stdin == self.stdin,
            r.args == self.args,
    {
        Executor { compile_memory_limit: Some(limit), ..self }
    }

    /// The same request with the run stage's memory limit set to `limit`.
    pub fn set_run_memory_limit(self, limit: i64) -> (r: Executor)
        ensures
            r.run_memory_limit == Some(limit),
            r.compile_timeout == self.compile_timeout,
            r.run_timeout == self.run_timeout,
            r.compile_memory_limit == self.compile_memory_limit,
            r.language == self.language,
            r.version == self.version,
            r.files == self.files,
            r.stdin == self.stdin,
            r.args == self.args,
    {
        Executor { run_memory_limit: Some(limit), ..self }
    }
}

} // verus!
