//! The file transfer service: which file an address of the service stands
//! for, and what the service answers.

use crate::text::has_prefix;
use vstd::prelude::*;

verus! {

/// The TCP port on which the file transfer service listens.
pub const HTTP_FILE_TRANSFER_PORT: u16 = 8000;

/// Why a request for a file is refused.
#[derive(Debug)]
pub enum FileTransferError {
    /// The address stands for no file of the service.
    InvalidURI { value: String },
    /// The address of the service is taken.
    BindingAddressInUse { port: u16 },
    FromIo(String),
}

/// The configuration of the file transfer service.
#[derive(Debug)]
pub struct HttpConfig {
    pub bind_port: u16,
    pub file_transfer_uri: String,
    pub data_dir: String,
}

/// What joining makes of a directory and a path, on Unix: the path alone
/// where it begins with `/`; else the directory, a `/` unless the directory
/// is empty or ends with one, and the path.
pub open spec fn path_joined(base: Seq<char>, path: Seq<char>) -> Seq<char> {
    if path.len() > 0 && path[0] == '/' {
        path
    } else if base.len() == 0 || base.last() == '/' {
        base + path
    } else {
        base + seq!['/'] + path
    }
}

/// What `path_clean::clean` makes of a path: the path without `.`, `..`
/// and repeated `/`.
pub uninterp spec fn path_cleaned(path: Seq<char>) -> Seq<char>;

/// Whether `camino::Utf8Path::starts_with` finds the components of a base
/// at the beginning of those of a path.
pub uninterp spec fn path_begins_with(path: Seq<char>, base: Seq<char>) -> bool;

/// Joins a path to a directory with `camino::Utf8Path::join`, which hands
/// on to `std::path::Path::join`. On Unix that gives the path alone where it
/// begins with `/`, and else the directory, a `/` where the directory is not
/// empty and does not end with one, and the path: `path_joined` says so.
#[verifier::external_body]
fn join_path(base: &str, path: &str) -> (r: String)
    ensures
        r@ == path_joined(base@, path@),
{
    camino::Utf8Path::new(base).join(path).into_string()
}

/// Cleans a path with `path_clean::clean`. The result is named by
/// `path_cleaned`.
#[verifier::external_body]
fn clean_utf8_path(path: &str) -> (r: String)
    ensures
        r@ == path_cleaned(path@),
{
    path_clean::clean(path)
}

/// Asks `camino::Utf8Path::starts_with` whether a path begins with a base.
/// The result is named by `path_begins_with`.
#[verifier::external_body]
fn path_starts_with(path: &str, base: &str) -> (r: bool)
    ensures
        r == path_begins_with(path@, base@),
{
    camino::Utf8Path::new(path).starts_with(base)
}

/// The file that an address stands for: the address has to begin with the
/// address of the service; what follows is joined to the data directory and
/// cleaned, and has to lie under the data directory then.
pub open spec fn local_path(
    file_transfer_uri: Seq<char>,
    data_dir: Seq<char>,
    uri: Seq<char>,
) -> Result<Seq<char>, Seq<char>> {
    if !file_transfer_uri.is_prefix_of(uri) {
        Err(uri)
    } else {
        let path = uri.subrange(file_transfer_uri.len() as int, uri.len() as int);
        let clean_path = path_cleaned(path_joined(data_dir, path));
        if path_begins_with(clean_path, data_dir) {
            Ok(clean_path)
        } else {
            Err(clean_path)
        }
    }
}

/// The position behind the last `/` of a text, or 0 where it has none.
pub open spec fn after_last_slash(s: Seq<char>) -> int
    decreases s.len(),
{
    if s.len() == 0 {
        0
    } else if s.last() == '/' {
        s.len() as int
    } else {
        after_last_slash(s.drop_last())
    }
}

/// The directory and the file name of a path: what stands before and
/// behind its last `/`.
pub open spec fn path_and_file_name(input: Seq<char>) -> Option<(Seq<char>, Seq<char>)> {
    let cut = after_last_slash(input);
    if cut == 0 {
        None
    } else {
        Some((input.subrange(0, cut - 1), input.subrange(cut, input.len() as int)))
    }
}

proof fn lemma_after_last_slash(s: Seq<char>, n: int, cut: int)
    requires
        0 <= cut <= n <= s.len(),
        cut > 0 ==> s[cut - 1] == '/',
        forall|k: int| cut <= k < n ==> s[k] != '/',
        cut == 0 ==> forall|k: int| 0 <= k < n ==> s[k] != '/',
    ensures
        after_last_slash(s.take(n)) == cut,
    decreases n,
{
    let t = s.take(n);
    if n == 0 {
    } else if n == cut {
    } else {
        assert(t.last() == s[n - 1]);
        assert(t.drop_last() =~= s.take(n - 1));
        lemma_after_last_slash(s, n - 1, cut);
    }
}

/// Parts a path at its last `/` into the directory and the file name.
pub fn separate_path_and_file_name(input: &str) -> (r: Option<(String, String)>)
    ensures
        match r {
            Some((dir, name)) => path_and_file_name(input@) == Some((dir@, name@)),
            None => path_and_file_name(input@) is None,
        },
{
    let n: usize = input.unicode_len();
    let mut cut: usize = 0;
    let mut i: usize = 0;
    while i < n
        invariant
            n == input@.len(),
            i <= n,
            cut <= i,
            cut > 0 ==> input@[cut - 1] == '/',
            forall|k: int| cut <= k < i ==> input@[k] != '/',
            cut == 0 ==> forall|k: int| 0 <= k < i ==> input@[k] != '/',
        decreases n - i,
    {
        if input.get_char(i) == '/' {
            cut = i + 1;
        }
        i = i + 1;
    }
    proof {
        lemma_after_last_slash(input@, n as int, cut as int);
        assert(input@.take(n as int) =~= input@);
    }
    if cut == 0 {
        None
    } else {
        Some(
            (
                String::from_str(input.substring_char(0, cut - 1)),
                String::from_str(input.substring_char(cut, n)),
            ),
        )
    }
}

impl Default for HttpConfig {
    fn default() -> (r: Self)
        ensures
            r.bind_port == HTTP_FILE_TRANSFER_PORT,
            r.file_transfer_uri@ == "/tedge/"@,
            r.data_dir@ == "/var/tedge"@,
    {
        HttpConfig {
            bind_port: HTTP_FILE_TRANSFER_PORT,
            file_transfer_uri: String::from_str("/tedge/"),
            data_dir: String::from_str("/var/tedge"),
        }
    }
}

impl HttpConfig {
    pub fn with_data_dir(self, data_dir: String) -> (r: HttpConfig)
        ensures
            r.bind_port == self.bind_port,
            r.file_transfer_uri == self.file_transfer_uri,
            r.data_dir == data_dir,
    {
        HttpConfig {
            bind_port: self.bind_port,
            file_transfer_uri: self.file_transfer_uri,
            data_dir,
        }
    }

    pub fn with_port(self, port: u16) -> (r: HttpConfig)
        ensures
            r.bind_port == port,
            r.file_transfer_uri == self.file_transfer_uri,
            r.data_dir == self.data_dir,
    {
        HttpConfig {
            bind_port: port,
            file_transfer_uri: self.file_transfer_uri,
            data_dir: self.data_dir,
        }
    }

    /// The route of the service: every path under `file-transfer/`.
    pub fn file_transfer_end_point(&self) -> (r: String)
        ensures
            r@ == self.file_transfer_uri@ + "file-transfer/*path"@,
    {
        let mut route = self.file_transfer_uri.clone();
        route.append("file-transfer/*path");
        route
    }

    /// The file that an address stands for. An address outside the service,
    /// or one whose path leaves the data directory, is refused with
    /// `InvalidURI`: the first with the address, the second with the path.
    pub fn local_path_for_uri(&self, uri: String) -> (r: Result<String, FileTransferError>)
        ensures
            match r {
                Ok(path) => local_path(self.file_transfer_uri@, self.data_dir@, uri@) == Ok::<
                    Seq<char>,
                    Seq<char>,
                >(path@),
                Err(FileTransferError::InvalidURI { value }) => local_path(
                    self.file_transfer_uri@,
                    self.data_dir@,
                    uri@,
                ) == Err::<Seq<char>, Seq<char>>(value@),
                Err(_) => false,
            },
    {
        if !has_prefix(uri.as_str(), self.file_transfer_uri.as_str()) {
            return Err(FileTransferError::InvalidURI { value: uri });
        }
        let path = uri.as_str().substring_char(
            self.file_transfer_uri.as_str().unicode_len(),
            uri.as_str().unicode_len(),
        );
        let full_path = join_path(self.data_dir.as_str(), path);
        let clean_path = clean_utf8_path(full_path.as_str());
        if path_starts_with(clean_path.as_str(), self.data_dir.as_str()) {
            Ok(clean_path)
        } else {
            Err(FileTransferError::InvalidURI { value: clean_path })
        }
    }
}

/// What the service does with its files for a request.
#[derive(Debug)]
pub enum FileAction {
    /// No file is touched, and the service answers at once.
    Answer(FileOutcome),
    /// The directory is made, with those above it, and what the request
    /// brings is written to the file.
    Write { directory: String, file: String },
    /// The file is read.
    Read { file: String },
    /// The file is removed.
    Remove { file: String },
}

/// The mathematical value of a [`FileAction`].
pub enum FileActionModel {
    Answer(FileOutcome),
    Write { directory: Seq<char>, file: Seq<char> },
    Read { file: Seq<char> },
    Remove { file: Seq<char> },
}

impl View for FileAction {
    type V = FileActionModel;

    open spec fn view(&self) -> FileActionModel {
        match self {
            FileAction::Answer(outcome) => FileActionModel::Answer(*outcome),
            FileAction::Write { directory, file } => FileActionModel::Write {
                directory: directory@,
                file: file@,
            },
            FileAction::Read { file } => FileActionModel::Read { file: file@ },
            FileAction::Remove { file } => FileActionModel::Remove { file: file@ },
        }
    }
}

/// What the service does for a `PUT`: an address that is refused, or that
/// stands for a path without a `/`, touches no file; else the directory of
/// the file is made under the data directory and the file is written in it.
pub open spec fn put_action(
    file_transfer_uri: Seq<char>,
    data_dir: Seq<char>,
    uri: Seq<char>,
) -> FileActionModel {
    match local_path(file_transfer_uri, data_dir, uri) {
        Err(_) => FileActionModel::Answer(FileOutcome::Refused),
        Ok(path) => match path_and_file_name(path) {
            Some((directory, name)) => FileActionModel::Write {
                directory: path_joined(data_dir, directory),
                file: path_joined(path_joined(data_dir, directory), name),
            },
            None => FileActionModel::Answer(FileOutcome::Failed),
        },
    }
}

/// What the service does for a `GET`: an address that is refused touches
/// no file; else the file is read.
pub open spec fn get_action(
    file_transfer_uri: Seq<char>,
    data_dir: Seq<char>,
    uri: Seq<char>,
) -> FileActionModel {
    match local_path(file_transfer_uri, data_dir, uri) {
        Err(_) => FileActionModel::Answer(FileOutcome::Refused),
        Ok(path) => FileActionModel::Read { file: path },
    }
}

/// What the service does for a `DELETE`: an address that is refused
/// touches no file; else the file is removed.
pub open spec fn delete_action(
    file_transfer_uri: Seq<char>,
    data_dir: Seq<char>,
    uri: Seq<char>,
) -> FileActionModel {
    match local_path(file_transfer_uri, data_dir, uri) {
        Err(_) => FileActionModel::Answer(FileOutcome::Refused),
        Ok(path) => FileActionModel::Remove { file: path },
    }
}

/// What the service does for a `PUT` on an address.
pub fn put(uri: String, file_transfer: &HttpConfig) -> (r: FileAction)
    ensures
        r@ == put_action(file_transfer.file_transfer_uri@, file_transfer.data_dir@, uri@),
{
    let full_path = match file_transfer.local_path_for_uri(uri) {
        Ok(path) => path,
        Err(_) => {
            return FileAction::Answer(FileOutcome::Refused);
        },
    };
    match separate_path_and_file_name(full_path.as_str()) {
        Some((relative_path, file_name)) => {
            let directory = join_path(file_transfer.data_dir.as_str(), relative_path.as_str());
            let file = join_path(directory.as_str(), file_name.as_str());
            FileAction::Write { directory, file }
        },
        None => FileAction::Answer(FileOutcome::Failed),
    }
}

/// What the service does for a `GET` on an address.
pub fn get(uri: String, file_transfer: &HttpConfig) -> (r: FileAction)
    ensures
        r@ == get_action(file_transfer.file_transfer_uri@, file_transfer.data_dir@, uri@),
{
    match file_transfer.local_path_for_uri(uri) {
        Ok(file) => FileAction::Read { file },
        Err(_) => FileAction::Answer(FileOutcome::Refused),
    }
}

/// What the service does for a `DELETE` on an address.
pub fn delete(uri: String, file_transfer: &HttpConfig) -> (r: FileAction)
    ensures
        r@ == delete_action(file_transfer.file_transfer_uri@, file_transfer.data_dir@, uri@),
{
    match file_transfer.local_path_for_uri(uri) {
        Ok(file) => FileAction::Remove { file },
        Err(_) => FileAction::Answer(FileOutcome::Refused),
    }
}

/// An address that is refused is answered with `403` and touches no file,
/// whatever is asked for.
pub proof fn law_refused_address_touches_no_file(
    file_transfer_uri: Seq<char>,
    data_dir: Seq<char>,
    uri: Seq<char>,
)
    requires
        local_path(file_transfer_uri, data_dir, uri) is Err,
    ensures
        put_action(file_transfer_uri, data_dir, uri) == FileActionModel::Answer(
            FileOutcome::Refused,
        ),
        get_action(file_transfer_uri, data_dir, uri) == FileActionModel::Answer(
            FileOutcome::Refused,
        ),
        delete_action(file_transfer_uri, data_dir, uri) == FileActionModel::Answer(
            FileOutcome::Refused,
        ),
        status_of(Method::Put, FileOutcome::Refused) == 403,
        status_of(Method::Get, FileOutcome::Refused) == 403,
        status_of(Method::Delete, FileOutcome::Refused) == 403,
{
}

/// An address that leaves the data directory is refused: one that, once
/// it is joined to the data directory and cleaned, does not begin with the
/// data directory.
pub proof fn law_path_outside_the_data_directory_is_refused(
    file_transfer_uri: Seq<char>,
    data_dir: Seq<char>,
    uri: Seq<char>,
)
    requires
        file_transfer_uri.is_prefix_of(uri),
        !path_begins_with(
            path_cleaned(
                path_joined(
                    data_dir,
                    uri.subrange(file_transfer_uri.len() as int, uri.len() as int),
                ),
            ),
            data_dir,
        ),
    ensures
        local_path(file_transfer_uri, data_dir, uri) is Err,
        put_action(file_transfer_uri, data_dir, uri) == FileActionModel::Answer(
            FileOutcome::Refused,
        ),
{
}

/// What the service is asked to do with a file.
#[derive(Debug, Clone, Copy, PartialEq, Eq, Structural)]
pub enum Method {
    Get,
    Put,
    Delete,
}

/// What became of the file.
#[derive(Debug, Clone, Copy, PartialEq, Eq, Structural)]
pub enum FileOutcome {
    /// The address stands for no file of the service.
    Refused,
    /// There is no such file, or it is a directory.
    Missing,
    /// The file was read, written or removed.
    Done,
    /// The file could not be read, written or removed.
    Failed,
}

/// The status that the service answers with: `403` for an address that is
/// refused and for a failure; for `GET`, `200` with the file and `404`
/// without; for `PUT`, `201`; for `DELETE`, `202`, also where there is no
/// such file.
pub open spec fn status_of(method: Method, outcome: FileOutcome) -> u16 {
    match (method, outcome) {
        (_, FileOutcome::Refused) => 403,
        (Method::Get, FileOutcome::Done) => 200,
        (Method::Get, _) => 404,
        (Method::Put, FileOutcome::Done) => 201,
        (Method::Put, _) => 403,
        (Method::Delete, FileOutcome::Failed) => 403,
        (Method::Delete, _) => 202,
    }
}

/// The status that the service answers with.
pub fn response_status(method: Method, outcome: FileOutcome) -> (r: u16)
    ensures
        r == status_of(method, outcome),
{
    match (method, outcome) {
        (_, FileOutcome::Refused) => 403,
        (Method::Get, FileOutcome::Done) => 200,
        (Method::Get, _) => 404,
        (Method::Put, FileOutcome::Done) => 201,
        (Method::Put, _) => 403,
        (Method::Delete, FileOutcome::Failed) => 403,
        (Method::Delete, _) => 202,
    }
}

} // verus!
