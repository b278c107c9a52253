//! Service configuration and the default output template it yields.
use vstd::prelude::*;
use vstd::string::*;

verus! {

/// Where downloads go unless a request names its own template.
#[derive(Debug)]
pub struct Config {
    pub download_directory: String,
}

/// `name` placed under directory `dir`, with one `/` between them.
pub open spec fn joined(dir: Seq<char>, name: Seq<char>) -> Seq<char> {
    if dir.len() == 0 {
        name
    } else if dir.last() == '/' {
        dir + name
    } else {
        dir + seq!['/'] + name
    }
}

/// The file name template used under the download directory.
pub open spec fn default_file_template() -> Seq<char> {
    "%(title)s [%(id)s].%(ext)s"@
}

impl Config {
    /// A configuration for `dir`, the user's download directory when one is
    /// known, and `downloads` otherwise.
    pub fn with_download_dir(dir: Option<String>) -> (r: Config)
        ensures
            r.download_directory@ == match dir {
                Some(d) => d@,
                None => "downloads"@,
            },
    {
        match dir {
            Some(d) => Config { download_directory: d },
            None => Config { download_directory: String::from_str("downloads") },
        }
    }

    /// The output template of a job: the one the request gave, or the
    /// default file template under the download directory.
    pub fn output_template(&self, requested: &Option<String>) -> (r: String)
        ensures
            r@ == match requested {
                Some(t) => t@,
                None => joined(self.download_directory@, default_file_template()),
            },
    {
        match requested {
            Some(t) => t.clone(),
            None => {
                let dir = self.download_directory.as_str();
                let n = dir.unicode_len();
                let name = "%(title)s [%(id)s].%(ext)s";
                if n == 0 {
                    String::from_str(name)
                } else if dir.get_char(n - 1) == '/' {
                    String::from_str(dir).concat(name)
                } else {
                    proof {
                        reveal_strlit("/");
                    }
                    let r = String::from_str(dir).concat("/").concat(name);
                    assert(r@ =~= joined(dir@, default_file_template()));
                    r
                }
            },
        }
    }
}

} // verus!
