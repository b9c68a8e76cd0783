use vstd::prelude::*;
use crate::ids::{fresh_id, is_uuid_text};
use crate::text::str_eq;

verus! {

/// The languages that the code tool runs.
#[derive(Clone, Copy, Debug, PartialEq, Eq, Structural)]
pub enum CodeLanguage {
    Python,
    Node,
}

/// A call of the code tool, checked.
pub struct CodeRequest {
    pub language: CodeLanguage,
    pub code: String,
    pub timeout_seconds: u64,
}

/// The time a snippet may run unless the call says otherwise.
pub const DEFAULT_CODE_TIMEOUT: u64 = 30;

/// The language that a name stands for.
pub open spec fn language_spec(name: Seq<char>) -> Option<CodeLanguage> {
    if name == "python"@ {
        Some(CodeLanguage::Python)
    } else if name == "node"@ {
        Some(CodeLanguage::Node)
    } else {
        None
    }
}

/// Checks a call of the code tool, given its `language`, `code` and
/// `timeout_seconds` arguments where they are present and of the right type:
/// the language must be given, then the code, and the language must be
/// python or node; the timeout defaults to 30 seconds.
pub fn code_request(language: Option<&str>, code: Option<&str>, timeout_seconds: Option<u64>) -> (r: Result<CodeRequest, &'static str>)
    ensures
        language is None ==> (r matches Err(e) && e@ == "Missing or invalid 'language' argument"@),
        language is Some && code is None ==> (r matches Err(e) && e@ == "Missing or invalid 'code' argument"@),
        language matches Some(l) ==> (code matches Some(c) ==> match language_spec(l@) {
            None => r matches Err(e) && e@ == "Unsupported language"@,
            Some(lang) => r matches Ok(q) && q.language == lang && q.code@ == c@
                && q.timeout_seconds == (match timeout_seconds { Some(t) => t, None => DEFAULT_CODE_TIMEOUT }),
        }),
{
    let l = match language {
        Some(l) => l,
        None => return Err("Missing or invalid 'language' argument"),
    };
    let c = match code {
        Some(c) => c,
        None => return Err("Missing or invalid 'code' argument"),
    };
    let timeout = match timeout_seconds {
        Some(t) => t,
        None => DEFAULT_CODE_TIMEOUT,
    };
    let lang = if str_eq(l, "python") {
        CodeLanguage::Python
    } else if str_eq(l, "node") {
        CodeLanguage::Node
    } else {
        return Err("Unsupported language");
    };
    Ok(CodeRequest { language: lang, code: String::from_str(c), timeout_seconds: timeout })
}

impl CodeLanguage {
    /// The file extension of a snippet.
    pub fn extension(&self) -> (e: &'static str)
        ensures
            *self == CodeLanguage::Python ==> e@ == "py"@,
            *self == CodeLanguage::Node ==> e@ == "js"@,
    {
        match self {
            CodeLanguage::Python => "py",
            CodeLanguage::Node => "js",
        }
    }

    /// The interpreter that runs a snippet.
    pub fn interpreter(&self) -> (i: &'static str)
        ensures
            *self == CodeLanguage::Python ==> i@ == "python3"@,
            *self == CodeLanguage::Node ==> i@ == "node"@,
    {
        match self {
            CodeLanguage::Python => "python3",
            CodeLanguage::Node => "node",
        }
    }

    /// A fresh path inside the sandbox for a snippet.
    pub fn sandbox_path(&self) -> (p: String)
        ensures
            exists|u: Seq<char>| is_uuid_text(u) && p@ == "/tmp/code_"@ + u + "."@
                + (if *self == CodeLanguage::Python { "py"@ } else { "js"@ }),
    {
        let unique = fresh_id();
        let mut p = String::from_str("/tmp/code_");
        p.append(unique.as_str());
        p.append(".");
        p.append(self.extension());
        p
    }

    /// The command that runs a snippet written to `path` inside the sandbox.
    pub fn sandbox_command(&self, path: &str) -> (c: String)
        ensures
            c@ == (if *self == CodeLanguage::Python { "python3"@ } else { "node"@ }) + " "@ + path@,
    {
        let mut c = String::from_str(self.interpreter());
        c.append(" ");
        c.append(path);
        c
    }

    /// A fresh name for the temporary file of a snippet run on the host.
    pub fn local_file_name(&self) -> (f: String)
        ensures
            exists|u: Seq<char>| is_uuid_text(u) && f@ == "athena_code_eval_"@ + u + "."@
                + (if *self == CodeLanguage::Python { "py"@ } else { "js"@ }),
    {
        let unique = fresh_id();
        let mut f = String::from_str("athena_code_eval_");
        f.append(unique.as_str());
        f.append(".");
        f.append(self.extension());
        f
    }
}

/// The name under which the code tool is registered.
pub const CODE_TOOL_NAME: &'static str = "execute_code";

/// The toolset of the code tool.
pub const CODE_TOOLSET: &'static str = "code_execution";

} // verus!
