//! Importing a thread: the file that holds the catalog is authenticated, the
//! catalog is held to its rules, and a binding is looked up in it.

use crate::catalog::{is_canonical, ImportBinding, ImportBindings};
use crate::identity::{canonical_codex_session_id, is_sha256, is_source_thread_id};
use crate::restricted::{PROFILE_NAME, PROJECT_PATH};
use crate::text::{text_eq, white_space};
use vstd::prelude::*;
use vstd::string::*;

verus! {

pub const IMPORT_BINDINGS_PATH: &'static str = "/run/maya-aoe-import-bindings.json";

pub const IMPORT_BINDINGS_SCHEMA: &'static str = "maya.aoe.import-bindings.v1";

pub const IMPORT_BINDINGS_TYPE: &'static str = "maya-aoe-import-bindings";

pub const MAX_IMPORT_BINDINGS_BYTES: u64 = 1024 * 1024;

/// Why a thread cannot be imported.
#[derive(Clone, Copy, Debug, PartialEq, Eq, Structural)]
pub enum ImportError {
    NotRegularFile,
    LinkCount,
    NotRootOwned,
    WrongGroup,
    WrongMode,
    InvalidSize,
    ChangedWhileReading,
    MissingLineFeed,
    Malformed,
    NotCanonical,
    WrongSchema,
    WrongType,
    WrongProfile,
    WrongProject,
    InvalidDigest,
    NoEntries,
    InvalidSource,
    EmptyTitle,
    UntrimmedTitle,
    InvalidCodexId,
    DuplicateSource,
    DuplicateCodexId,
    DigestMismatch,
    NotBound,
}

/// What an error says.
pub open spec fn error_text(e: ImportError) -> Seq<char> {
    match e {
        ImportError::NotRegularFile => "import bindings is not a regular file"@,
        ImportError::LinkCount => "import bindings must have one link"@,
        ImportError::NotRootOwned => "import bindings must be root-owned"@,
        ImportError::WrongGroup => "import bindings has the wrong group"@,
        ImportError::WrongMode => "import bindings mode must be 0440"@,
        ImportError::InvalidSize => "import bindings has invalid size"@,
        ImportError::ChangedWhileReading => "import bindings changed while reading"@,
        ImportError::MissingLineFeed => "import bindings must end in one LF"@,
        ImportError::Malformed => "import bindings JSON is malformed"@,
        ImportError::NotCanonical => "import bindings JSON is not canonical"@,
        ImportError::WrongSchema => "wrong import bindings schema"@,
        ImportError::WrongType => "wrong import bindings type"@,
        ImportError::WrongProfile => "wrong import bindings profile"@,
        ImportError::WrongProject => "wrong import bindings project"@,
        ImportError::InvalidDigest => "invalid source catalog digest"@,
        ImportError::NoEntries => "import bindings has no entries"@,
        ImportError::InvalidSource => "invalid source T3 thread id"@,
        ImportError::EmptyTitle => "empty import title"@,
        ImportError::UntrimmedTitle => "non-canonical import title"@,
        ImportError::InvalidCodexId => "invalid managed Codex session id"@,
        ImportError::DuplicateSource => "duplicate source T3 thread id"@,
        ImportError::DuplicateCodexId => "duplicate managed Codex session id"@,
        ImportError::DigestMismatch => "source catalog digest mismatch"@,
        ImportError::NotBound => "source T3 thread is not bound for import"@,
    }
}

impl ImportError {
    /// What the error says.
    pub fn message(self) -> (r: &'static str)
        ensures
            r@ == error_text(self),
    {
        match self {
            ImportError::NotRegularFile => "import bindings is not a regular file",
            ImportError::LinkCount => "import bindings must have one link",
            ImportError::NotRootOwned => "import bindings must be root-owned",
            ImportError::WrongGroup => "import bindings has the wrong group",
            ImportError::WrongMode => "import bindings mode must be 0440",
            ImportError::InvalidSize => "import bindings has invalid size",
            ImportError::ChangedWhileReading => "import bindings changed while reading",
            ImportError::MissingLineFeed => "import bindings must end in one LF",
            ImportError::Malformed => "import bindings JSON is malformed",
            ImportError::NotCanonical => "import bindings JSON is not canonical",
            ImportError::WrongSchema => "wrong import bindings schema",
            ImportError::WrongType => "wrong import bindings type",
            ImportError::WrongProfile => "wrong import bindings profile",
            ImportError::WrongProject => "wrong import bindings project",
            ImportError::InvalidDigest => "invalid source catalog digest",
            ImportError::NoEntries => "import bindings has no entries",
            ImportError::InvalidSource => "invalid source T3 thread id",
            ImportError::EmptyTitle => "empty import title",
            ImportError::UntrimmedTitle => "non-canonical import title",
            ImportError::InvalidCodexId => "invalid managed Codex session id",
            ImportError::DuplicateSource => "duplicate source T3 thread id",
            ImportError::DuplicateCodexId => "duplicate managed Codex session id",
            ImportError::DigestMismatch => "source catalog digest mismatch",
            ImportError::NotBound => "source T3 thread is not bound for import",
        }
    }
}

/// What the opened catalog file says of itself.
#[derive(Clone, Copy, Debug)]
pub struct FileFacts {
    pub is_file: bool,
    pub links: u64,
    pub uid: u32,
    pub gid: u32,
    pub mode: u32,
    pub len: u64,
}

/// What is wrong with the catalog file, if anything: it must be a regular file
/// with one link, owned by root and the group of the service, readable by these
/// two and nothing else, and of a sensible size.
pub open spec fn file_error(facts: FileFacts, service_gid: u32) -> Option<ImportError> {
    if !facts.is_file {
        Some(ImportError::NotRegularFile)
    } else if facts.links != 1 {
        Some(ImportError::LinkCount)
    } else if facts.uid != 0 {
        Some(ImportError::NotRootOwned)
    } else if facts.gid != service_gid {
        Some(ImportError::WrongGroup)
    } else if facts.mode & 0o7777 != 0o440 {
        Some(ImportError::WrongMode)
    } else if !(1 <= facts.len <= MAX_IMPORT_BINDINGS_BYTES) {
        Some(ImportError::InvalidSize)
    } else {
        None
    }
}

/// Whether the catalog file may be read.
pub fn authenticate_bindings_file(facts: &FileFacts, service_gid: u32) -> (r: Result<
    (),
    ImportError,
>)
    ensures
        match r {
            Ok(_) => file_error(*facts, service_gid) is None,
            Err(e) => file_error(*facts, service_gid) == Some(e),
        },
{
    if !facts.is_file {
        Err(ImportError::NotRegularFile)
    } else if facts.links != 1 {
        Err(ImportError::LinkCount)
    } else if facts.uid != 0 {
        Err(ImportError::NotRootOwned)
    } else if facts.gid != service_gid {
        Err(ImportError::WrongGroup)
    } else if facts.mode & 0o7777 != 0o440 {
        Err(ImportError::WrongMode)
    } else if !(1 <= facts.len && facts.len <= MAX_IMPORT_BINDINGS_BYTES) {
        Err(ImportError::InvalidSize)
    } else {
        Ok(())
    }
}

/// What is wrong with the catalog file of which this many bytes were read, if
/// anything.
pub open spec fn read_error(facts: FileFacts, service_gid: u32, len: nat) -> Option<ImportError> {
    if file_error(facts, service_gid) is Some {
        file_error(facts, service_gid)
    } else if len != facts.len {
        Some(ImportError::ChangedWhileReading)
    } else {
        None
    }
}

/// The content of the catalog file, given what the file says of itself and the
/// bytes that were read from it.
pub fn read_import_bindings(facts: &FileFacts, service_gid: u32, bytes: Vec<u8>) -> (r: Result<
    Vec<u8>,
    ImportError,
>)
    ensures
        match r {
            Ok(content) => {
                &&& content == bytes
                &&& file_error(*facts, service_gid) is None
                &&& bytes@.len() == facts.len
            },
            Err(e) => match file_error(*facts, service_gid) {
                Some(wrong) => e == wrong,
                None => e == ImportError::ChangedWhileReading && bytes@.len() != facts.len,
            },
        },
        match r {
            Ok(content) => content@ == bytes@ && read_error(*facts, service_gid, bytes@.len())
                is None,
            Err(e) => read_error(*facts, service_gid, bytes@.len()) == Some(e),
        },
{
    match authenticate_bindings_file(facts, service_gid) {
        Ok(_) => {
            if bytes.len() as u64 == facts.len {
                Ok(bytes)
            } else {
                Err(ImportError::ChangedWhileReading)
            }
        },
        Err(e) => Err(e),
    }
}

/// Whether a title holds white space only.
pub open spec fn is_blank(title: Seq<char>) -> bool {
    forall|i: int| 0 <= i < title.len() ==> crate::text::is_white_space(#[trigger] title[i])
}

/// Whether a title neither begins nor ends in white space.
pub open spec fn is_trimmed(title: Seq<char>) -> bool {
    title.len() > 0 ==> !crate::text::is_white_space(title[0]) && !crate::text::is_white_space(
        title.last(),
    )
}

/// Whether the source of an entry occurred before it.
pub open spec fn repeats_source(entries: Seq<crate::catalog::BindingModel>, i: int) -> bool {
    exists|j: int| 0 <= j < i && (#[trigger] entries[j]).source == entries[i].source
}

/// Whether the agent session of an entry occurred before it.
pub open spec fn repeats_codex_id(entries: Seq<crate::catalog::BindingModel>, i: int) -> bool {
    exists|j: int| 0 <= j < i && (#[trigger] entries[j]).codex_id == entries[i].codex_id
}

/// What is wrong with an entry, if anything.
pub open spec fn entry_error(entries: Seq<crate::catalog::BindingModel>, i: int) -> Option<
    ImportError,
> {
    if !crate::identity::is_source_thread(entries[i].source) {
        Some(ImportError::InvalidSource)
    } else if is_blank(entries[i].title) {
        Some(ImportError::EmptyTitle)
    } else if !is_trimmed(entries[i].title) {
        Some(ImportError::UntrimmedTitle)
    } else if !crate::identity::is_canonical_uuid(entries[i].codex_id) {
        Some(ImportError::InvalidCodexId)
    } else if repeats_source(entries, i) {
        Some(ImportError::DuplicateSource)
    } else if repeats_codex_id(entries, i) {
        Some(ImportError::DuplicateCodexId)
    } else {
        None
    }
}

/// What is wrong with the first wrong entry from `i` on, if any is.
pub open spec fn first_entry_error(entries: Seq<crate::catalog::BindingModel>, i: int) -> Option<
    ImportError,
>
    decreases entries.len() - i,
{
    if i >= entries.len() {
        None
    } else {
        match entry_error(entries, i) {
            Some(e) => Some(e),
            None => first_entry_error(entries, i + 1),
        }
    }
}

/// What is wrong with a catalog, if anything.
pub open spec fn catalog_error(c: crate::catalog::CatalogModel) -> Option<ImportError> {
    if c.schema != IMPORT_BINDINGS_SCHEMA@ {
        Some(ImportError::WrongSchema)
    } else if c.kind != IMPORT_BINDINGS_TYPE@ {
        Some(ImportError::WrongType)
    } else if c.profile != PROFILE_NAME@ {
        Some(ImportError::WrongProfile)
    } else if c.project_path != PROJECT_PATH@ {
        Some(ImportError::WrongProject)
    } else if !crate::identity::is_hex_text(c.sha256, 64) {
        Some(ImportError::InvalidDigest)
    } else if c.entries.len() == 0 {
        Some(ImportError::NoEntries)
    } else {
        first_entry_error(c.entries, 0)
    }
}

/// What is wrong with a file content that decodes to a catalog, or to none.
pub open spec fn content_error(
    bytes: Seq<u8>,
    decoded: Option<crate::catalog::CatalogModel>,
) -> Option<ImportError> {
    if bytes.len() == 0 || bytes.last() != 10u8 {
        Some(ImportError::MissingLineFeed)
    } else {
        match decoded {
            None => Some(ImportError::Malformed),
            Some(c) => if bytes != crate::catalog::canonical_bytes(c) {
                Some(ImportError::NotCanonical)
            } else {
                catalog_error(c)
            },
        }
    }
}

/// What a decoded catalog says, if there is one.
pub open spec fn decoded_model(decoded: Option<ImportBindings>) -> Option<
    crate::catalog::CatalogModel,
> {
    match decoded {
        Some(catalog) => Some(catalog@),
        None => None,
    }
}

fn title_is_blank(title: &str) -> (r: bool)
    ensures
        r == is_blank(title@),
{
    let len: usize = title.unicode_len();
    let mut chars = title.chars();
    let mut i: usize = 0;
    while i < len
        invariant
            i <= len == title@.len(),
            vstd::std_specs::iter::IteratorSpec::remaining(&chars) == title@.skip(i as int),
            forall|j: int| 0 <= j < i ==> crate::text::is_white_space(#[trigger] title@[j]),
        decreases len - i,
    {
        let c = chars.next().unwrap();
        if !white_space(c) {
            assert(!crate::text::is_white_space(title@[i as int]));
            return false;
        }
        i = i + 1;
    }
    true
}

fn title_is_trimmed(title: &str) -> (r: bool)
    ensures
        r == is_trimmed(title@),
{
    let len: usize = title.unicode_len();
    len == 0 || (!white_space(title.get_char(0)) && !white_space(title.get_char(len - 1)))
}

fn source_repeats(entries: &Vec<ImportBinding>, i: usize) -> (r: bool)
    requires
        i < entries@.len(),
    ensures
        r == repeats_source(entries@.map_values(|entry: ImportBinding| entry@), i as int),
{
    let ghost models = entries@.map_values(|entry: ImportBinding| entry@);
    let mut j: usize = 0;
    while j < i
        invariant
            j <= i < entries@.len(),
            models == entries@.map_values(|entry: ImportBinding| entry@),
            forall|k: int| 0 <= k < j ==> (#[trigger] models[k]).source != models[i as int].source,
        decreases i - j,
    {
        if text_eq(
            entries[j].source_t3_thread_id.as_str(),
            entries[i].source_t3_thread_id.as_str(),
        ) {
            assert(models[j as int].source == models[i as int].source);
            return true;
        }
        j = j + 1;
    }
    false
}

fn codex_id_repeats(entries: &Vec<ImportBinding>, i: usize) -> (r: bool)
    requires
        i < entries@.len(),
    ensures
        r == repeats_codex_id(entries@.map_values(|entry: ImportBinding| entry@), i as int),
{
    let ghost models = entries@.map_values(|entry: ImportBinding| entry@);
    let mut j: usize = 0;
    while j < i
        invariant
            j <= i < entries@.len(),
            models == entries@.map_values(|entry: ImportBinding| entry@),
            forall|k: int|
                0 <= k < j ==> (#[trigger] models[k]).codex_id != models[i as int].codex_id,
        decreases i - j,
    {
        if text_eq(
            entries[j].managed_codex_session_id.as_str(),
            entries[i].managed_codex_session_id.as_str(),
        ) {
            assert(models[j as int].codex_id == models[i as int].codex_id);
            return true;
        }
        j = j + 1;
    }
    false
}

fn check_entry(entries: &Vec<ImportBinding>, i: usize) -> (r: Option<ImportError>)
    requires
        i < entries@.len(),
    ensures
        r == entry_error(entries@.map_values(|entry: ImportBinding| entry@), i as int),
{
    let entry = &entries[i];
    if !is_source_thread_id(entry.source_t3_thread_id.as_str()) {
        Some(ImportError::InvalidSource)
    } else if title_is_blank(entry.title.as_str()) {
        Some(ImportError::EmptyTitle)
    } else if !title_is_trimmed(entry.title.as_str()) {
        Some(ImportError::UntrimmedTitle)
    } else if !canonical_codex_session_id(entry.managed_codex_session_id.as_str()) {
        Some(ImportError::InvalidCodexId)
    } else if source_repeats(entries, i) {
        Some(ImportError::DuplicateSource)
    } else if codex_id_repeats(entries, i) {
        Some(ImportError::DuplicateCodexId)
    } else {
        None
    }
}

fn check_entries(entries: &Vec<ImportBinding>) -> (r: Option<ImportError>)
    ensures
        r == first_entry_error(entries@.map_values(|entry: ImportBinding| entry@), 0),
{
    let ghost models = entries@.map_values(|entry: ImportBinding| entry@);
    let mut i: usize = 0;
    while i < entries.len()
        invariant
            i <= entries@.len(),
            models == entries@.map_values(|entry: ImportBinding| entry@),
            first_entry_error(models, 0) == first_entry_error(models, i as int),
        decreases entries@.len() - i,
    {
        let wrong = check_entry(entries, i);
        if wrong.is_some() {
            return wrong;
        }
        i = i + 1;
    }
    None
}

fn check_catalog(catalog: &ImportBindings) -> (r: Option<ImportError>)
    ensures
        r == catalog_error(catalog@),
{
    if !text_eq(catalog.schema.as_str(), IMPORT_BINDINGS_SCHEMA) {
        Some(ImportError::WrongSchema)
    } else if !text_eq(catalog.kind.as_str(), IMPORT_BINDINGS_TYPE) {
        Some(ImportError::WrongType)
    } else if !text_eq(catalog.profile.as_str(), PROFILE_NAME) {
        Some(ImportError::WrongProfile)
    } else if !text_eq(catalog.project_path.as_str(), PROJECT_PATH) {
        Some(ImportError::WrongProject)
    } else if !is_sha256(catalog.source_catalog_sha256.as_str()) {
        Some(ImportError::InvalidDigest)
    } else if catalog.entries.len() == 0 {
        Some(ImportError::NoEntries)
    } else {
        check_entries(&catalog.entries)
    }
}

/// The catalog of a file content, given the catalog that the content decodes to
/// as JSON, if it does.
pub fn parse_import_bindings(bytes: &[u8], decoded: Option<ImportBindings>) -> (r: Result<
    ImportBindings,
    ImportError,
>)
    ensures
        match r {
            Ok(catalog) => {
                &&& decoded == Some(catalog)
                &&& content_error(bytes@, decoded_model(decoded)) is None
            },
            Err(e) => content_error(bytes@, decoded_model(decoded)) == Some(e),
        },
{
    if bytes.len() == 0 || bytes[bytes.len() - 1] != 10 {
        return Err(ImportError::MissingLineFeed);
    }
    match decoded {
        None => Err(ImportError::Malformed),
        Some(catalog) => {
            if !is_canonical(&catalog, bytes) {
                return Err(ImportError::NotCanonical);
            }
            match check_catalog(&catalog) {
                Some(e) => Err(e),
                None => Ok(catalog),
            }
        },
    }
}

/// What is wrong with a request to import, if anything.
pub open spec fn request_error(source: Seq<char>, digest: Seq<char>) -> Option<ImportError> {
    if !crate::identity::is_source_thread(source) {
        Some(ImportError::InvalidSource)
    } else if !crate::identity::is_hex_text(digest, 64) {
        Some(ImportError::InvalidDigest)
    } else {
        None
    }
}

/// Whether a request to import can be looked up at all.
pub fn check_import_request(source_t3_thread_id: &str, expected_catalog_sha256: &str) -> (r: Result<
    (),
    ImportError,
>)
    ensures
        match r {
            Ok(_) => request_error(source_t3_thread_id@, expected_catalog_sha256@) is None,
            Err(e) => request_error(source_t3_thread_id@, expected_catalog_sha256@) == Some(e),
        },
{
    if !is_source_thread_id(source_t3_thread_id) {
        Err(ImportError::InvalidSource)
    } else if !is_sha256(expected_catalog_sha256) {
        Err(ImportError::InvalidDigest)
    } else {
        Ok(())
    }
}

/// Whether a catalog binds a source thread.
pub open spec fn binds(c: crate::catalog::CatalogModel, source: Seq<char>) -> bool {
    exists|i: int| 0 <= i < c.entries.len() && (#[trigger] c.entries[i]).source == source
}

/// Why a request to import fails, if it does, given the content of the catalog
/// file.
pub open spec fn import_error(
    source: Seq<char>,
    digest: Seq<char>,
    bytes: Seq<u8>,
    decoded: Option<crate::catalog::CatalogModel>,
) -> Option<ImportError> {
    match request_error(source, digest) {
        Some(e) => Some(e),
        None => match content_error(bytes, decoded) {
            Some(e) => Some(e),
            None => if decoded->0.sha256 != digest {
                Some(ImportError::DigestMismatch)
            } else if !binds(decoded->0, source) {
                Some(ImportError::NotBound)
            } else {
                None
            },
        },
    }
}

fn position_of(entries: &Vec<ImportBinding>, source: &str) -> (r: Option<usize>)
    ensures
        match r {
            Some(i) => i < entries@.len() && entries@[i as int]@.source == source@,
            None => forall|j: int|
                0 <= j < entries@.len() ==> (#[trigger] entries@[j])@.source != source@,
        },
{
    let mut i: usize = 0;
    while i < entries.len()
        invariant
            i <= entries@.len(),
            forall|j: int| 0 <= j < i ==> (#[trigger] entries@[j])@.source != source@,
        decreases entries@.len() - i,
    {
        if text_eq(entries[i].source_t3_thread_id.as_str(), source) {
            return Some(i);
        }
        i = i + 1;
    }
    None
}

/// The binding of a source thread in the catalog with the expected digest, given
/// the content of the catalog file and the catalog that it decodes to as JSON.
pub fn load_import_binding(
    source_t3_thread_id: &str,
    expected_catalog_sha256: &str,
    bytes: &[u8],
    decoded: Option<ImportBindings>,
) -> (r: Result<ImportBinding, ImportError>)
    ensures
        match r {
            Ok(binding) => {
                &&& import_error(
                    source_t3_thread_id@,
                    expected_catalog_sha256@,
                    bytes@,
                    decoded_model(decoded),
                ) is None
                &&& decoded->0@.entries.contains(binding@)
                &&& binding@.source == source_t3_thread_id@
                &&& decoded is Some
                &&& decoded->0.source_catalog_sha256@ == expected_catalog_sha256@
                &&& decoded->0.entries@.contains(binding)
                &&& binding.source_t3_thread_id@ == source_t3_thread_id@
            },
            Err(e) => import_error(
                source_t3_thread_id@,
                expected_catalog_sha256@,
                bytes@,
                decoded_model(decoded),
            ) == Some(e),
        },
{
    match check_import_request(source_t3_thread_id, expected_catalog_sha256) {
        Ok(_) => {},
        Err(e) => {
            return Err(e);
        },
    }
    let catalog = match parse_import_bindings(bytes, decoded) {
        Ok(catalog) => catalog,
        Err(e) => {
            return Err(e);
        },
    };
    if !text_eq(catalog.source_catalog_sha256.as_str(), expected_catalog_sha256) {
        return Err(ImportError::DigestMismatch);
    }
    let ghost models = catalog@.entries;
    let mut entries = catalog.entries;
    match position_of(&entries, source_t3_thread_id) {
        Some(i) => {
            assert(models[i as int] == entries@[i as int]@);
            assert(decoded->0.entries@[i as int] == entries@[i as int]);
            Ok(entries.remove(i))
        },
        None => {
            assert forall|j: int| 0 <= j < models.len() implies (#[trigger] models[j]).source
                != source_t3_thread_id@ by {
                assert(models[j] == entries@[j]@);
            }
            Err(ImportError::NotBound)
        },
    }
}

/// What every entry of a valid catalog is: a source thread with a title and an
/// agent session, neither of which any other entry has.
pub open spec fn has_valid_entries(entries: Seq<crate::catalog::BindingModel>) -> bool {
    &&& forall|i: int|
        0 <= i < entries.len() ==> {
            &&& crate::identity::is_source_thread((#[trigger] entries[i]).source)
            &&& !is_blank(entries[i].title)
            &&& is_trimmed(entries[i].title)
            &&& crate::identity::is_canonical_uuid(entries[i].codex_id)
        }
    &&& forall|i: int, j: int|
        0 <= i < j < entries.len() ==> (#[trigger] entries[i]).source != (
        #[trigger] entries[j]).source && entries[i].codex_id != entries[j].codex_id
}

/// Whether a catalog may be imported from.
pub open spec fn is_valid_catalog(c: crate::catalog::CatalogModel) -> bool {
    &&& c.schema == IMPORT_BINDINGS_SCHEMA@
    &&& c.kind == IMPORT_BINDINGS_TYPE@
    &&& c.profile == PROFILE_NAME@
    &&& c.project_path == PROJECT_PATH@
    &&& crate::identity::is_hex_text(c.sha256, 64)
    &&& c.entries.len() > 0
    &&& has_valid_entries(c.entries)
}

proof fn no_error_from(entries: Seq<crate::catalog::BindingModel>, i: int)
    requires
        0 <= i <= entries.len(),
    ensures
        first_entry_error(entries, i) is None <==> (forall|k: int|
            i <= k < entries.len() ==> #[trigger] entry_error(entries, k) is None),
    decreases entries.len() - i,
{
    if i < entries.len() {
        no_error_from(entries, i + 1);
        if entry_error(entries, i) is None && first_entry_error(entries, i + 1) is None {
            assert forall|k: int| i <= k < entries.len() implies #[trigger] entry_error(
                entries,
                k,
            ) is None by {
                if k > i {
                }
            }
        }
    }
}

proof fn entries_without_error(entries: Seq<crate::catalog::BindingModel>)
    ensures
        first_entry_error(entries, 0) is None <==> has_valid_entries(entries),
{
    no_error_from(entries, 0);
    if first_entry_error(entries, 0) is None {
        assert forall|i: int| 0 <= i < entries.len() implies {
            &&& crate::identity::is_source_thread((#[trigger] entries[i]).source)
            &&& !is_blank(entries[i].title)
            &&& is_trimmed(entries[i].title)
            &&& crate::identity::is_canonical_uuid(entries[i].codex_id)
        } by {
            assert(entry_error(entries, i) is None);
        }
        assert forall|i: int, j: int| 0 <= i < j < entries.len() implies (
        #[trigger] entries[i]).source != (#[trigger] entries[j]).source && entries[i].codex_id
            != entries[j].codex_id by {
            assert(entry_error(entries, j) is None);
            assert(!repeats_source(entries, j));
            assert(!repeats_codex_id(entries, j));
        }
    }
    if has_valid_entries(entries) {
        assert forall|k: int| 0 <= k < entries.len() implies #[trigger] entry_error(
            entries,
            k,
        ) is None by {
            assert(crate::identity::is_source_thread(entries[k].source));
        }
    }
}

/// A content is accepted exactly where it decodes to a valid catalog and is that
/// catalog's canonical content.
pub proof fn accepted_contents_are_canonical_and_valid(
    bytes: Seq<u8>,
    decoded: Option<crate::catalog::CatalogModel>,
)
    ensures
        content_error(bytes, decoded) is None <==> {
            &&& decoded is Some
            &&& bytes == crate::catalog::canonical_bytes(decoded->0)
            &&& is_valid_catalog(decoded->0)
        },
{
    if let Some(c) = decoded {
        crate::catalog::canonical_bytes_end_in_a_line_feed(c);
        entries_without_error(c.entries);
    }
}

/// No two catalogs are accepted for one content.
pub proof fn accepted_contents_have_one_catalog(
    bytes: Seq<u8>,
    a: crate::catalog::CatalogModel,
    b: crate::catalog::CatalogModel,
)
    requires
        content_error(bytes, Some(a)) is None,
        content_error(bytes, Some(b)) is None,
    ensures
        a == b,
{
    crate::catalog::canonical_bytes_are_unique(a, b);
}

/// An accepted catalog binds a source thread to one title and one agent session,
/// and an agent session to one source thread.
pub proof fn bindings_are_one_to_one(
    bytes: Seq<u8>,
    c: crate::catalog::CatalogModel,
    x: crate::catalog::BindingModel,
    y: crate::catalog::BindingModel,
)
    requires
        content_error(bytes, Some(c)) is None,
        c.entries.contains(x),
        c.entries.contains(y),
    ensures
        x.source == y.source ==> x == y,
        x.codex_id == y.codex_id ==> x == y,
{
    entries_without_error(c.entries);
    let i = choose|i: int| 0 <= i < c.entries.len() && c.entries[i] == x;
    let j = choose|j: int| 0 <= j < c.entries.len() && c.entries[j] == y;
    if i < j {
        assert(c.entries[i].source != c.entries[j].source);
    } else if j < i {
        assert(c.entries[j].source != c.entries[i].source);
    }
}

/// The catalog file passes exactly where it is a regular file with one link, owned
/// by root and the group of the service, with the permission bits `0440` and no
/// others, and 1 to 1048576 bytes long. Otherwise the first of these that is not
/// so is reported.
pub proof fn catalog_files_pass_by_their_facts(facts: FileFacts, service_gid: u32)
    ensures
        ({
            let error = file_error(facts, service_gid);
            let sole = facts.is_file && facts.links == 1;
            let owned = sole && facts.uid == 0;
            let grouped = owned && facts.gid == service_gid;
            let closed = grouped && facts.mode % 4096 == 288;
            &&& error is None <==> closed && 0 < facts.len < 1048577
            &&& error == Some(ImportError::NotRegularFile) <==> !facts.is_file
            &&& error == Some(ImportError::LinkCount) <==> facts.is_file && !sole
            &&& error == Some(ImportError::NotRootOwned) <==> sole && !owned
            &&& error == Some(ImportError::WrongGroup) <==> owned && !grouped
            &&& error == Some(ImportError::WrongMode) <==> grouped && !closed
            &&& error == Some(ImportError::InvalidSize) <==> closed && !(0 < facts.len < 1048577)
        }),
{
    let mode = facts.mode;
    assert(mode & 0o7777 == mode % 4096) by (bit_vector);
}

/// An entry is wrong by its own fields and by the entries before it, and the first
/// of these faults is reported: its source is no thread id, its title is white
/// space only, its title has white space at an end, its agent session is no
/// canonical UUID, its source occurred before, its agent session occurred before.
pub proof fn entries_are_wrong_by_their_fields(
    before: Seq<crate::catalog::BindingModel>,
    entry: crate::catalog::BindingModel,
    later: Seq<crate::catalog::BindingModel>,
)
    ensures
        ({
            let entries = before.push(entry) + later;
            let error = entry_error(entries, before.len() as int);
            let source = crate::identity::is_source_thread(entry.source);
            let blank = forall|k: int|
                0 <= k < entry.title.len() ==> crate::text::is_white_space(
                    #[trigger] entry.title[k],
                );
            let trimmed = entry.title.len() > 0 && !crate::text::is_white_space(entry.title[0])
                && !crate::text::is_white_space(entry.title[entry.title.len() - 1]);
            let codex = crate::identity::is_canonical_uuid(entry.codex_id);
            let new_source = forall|j: int|
                0 <= j < before.len() ==> (#[trigger] before[j]).source != entry.source;
            let new_codex = forall|j: int|
                0 <= j < before.len() ==> (#[trigger] before[j]).codex_id != entry.codex_id;
            &&& error is None <==> source && trimmed && codex && new_source && new_codex
            &&& error == Some(ImportError::InvalidSource) <==> !source
            &&& error == Some(ImportError::EmptyTitle) <==> source && blank
            &&& error == Some(ImportError::UntrimmedTitle) <==> source && !blank && !trimmed
            &&& error == Some(ImportError::InvalidCodexId) <==> source && trimmed && !codex
            &&& error == Some(ImportError::DuplicateSource) <==> source && trimmed && codex
                && !new_source
            &&& error == Some(ImportError::DuplicateCodexId) <==> source && trimmed && codex
                && new_source && !new_codex
        }),
{
    let entries = before.push(entry) + later;
    let n = before.len() as int;
    assert(entries[n] == entry);
    assert forall|j: int| 0 <= j < n implies #[trigger] entries[j] == before[j] by {}
    if repeats_source(entries, n) {
        let j = choose|j: int| 0 <= j < n && (#[trigger] entries[j]).source == entries[n].source;
        assert(before[j].source == entry.source);
    } else {
        assert forall|j: int| 0 <= j < n implies (#[trigger] before[j]).source != entry.source by {
            assert(entries[j].source != entries[n].source);
        }
    }
    if repeats_codex_id(entries, n) {
        let j = choose|j: int|
            0 <= j < n && (#[trigger] entries[j]).codex_id == entries[n].codex_id;
        assert(before[j].codex_id == entry.codex_id);
    } else {
        assert forall|j: int| 0 <= j < n implies (#[trigger] before[j]).codex_id
            != entry.codex_id by {
            assert(entries[j].codex_id != entries[n].codex_id);
        }
    }
    if is_blank(entry.title) && entry.title.len() > 0 {
        assert(crate::text::is_white_space(entry.title[0]));
    }
    if entry.title.len() > 0 && !crate::text::is_white_space(entry.title[0]) {
        assert(!is_blank(entry.title));
    }
}

/// What is reported of the entries is what is wrong with the first wrong one.
pub proof fn the_first_wrong_entry_is_reported(
    entries: Seq<crate::catalog::BindingModel>,
    e: ImportError,
)
    ensures
        first_entry_error(entries, 0) == Some(e) <==> exists|i: int|
            0 <= i < entries.len() && #[trigger] entry_error(entries, i) == Some(e) && forall|j: int|
                0 <= j < i ==> #[trigger] entry_error(entries, j) is None,
{
    first_error_from(entries, 0, e);
}

proof fn first_error_from(
    entries: Seq<crate::catalog::BindingModel>,
    from: int,
    e: ImportError,
)
    requires
        0 <= from <= entries.len(),
    ensures
        first_entry_error(entries, from) == Some(e) <==> exists|i: int|
            from <= i < entries.len() && #[trigger] entry_error(entries, i) == Some(e)
                && forall|j: int| from <= j < i ==> #[trigger] entry_error(entries, j) is None,
    decreases entries.len() - from,
{
    if from < entries.len() {
        first_error_from(entries, from + 1, e);
        if entry_error(entries, from) is None {
            if first_entry_error(entries, from + 1) == Some(e) {
                let i = choose|i: int|
                    from + 1 <= i < entries.len() && #[trigger] entry_error(entries, i) == Some(e)
                        && forall|j: int|
                        from + 1 <= j < i ==> #[trigger] entry_error(entries, j) is None;
                assert forall|j: int| from <= j < i implies #[trigger] entry_error(
                    entries,
                    j,
                ) is None by {
                    if j > from {
                        assert(from + 1 <= j < i);
                    }
                }
                assert(entry_error(entries, i) == Some(e));
            }
            if exists|i: int|
                from <= i < entries.len() && #[trigger] entry_error(entries, i) == Some(e)
                    && forall|j: int| from <= j < i ==> #[trigger] entry_error(
                    entries,
                    j,
                ) is None {
                let i = choose|i: int|
                    from <= i < entries.len() && #[trigger] entry_error(entries, i) == Some(e)
                        && forall|j: int|
                        from <= j < i ==> #[trigger] entry_error(entries, j) is None;
                assert(from + 1 <= i);
            }
        } else {
            if entry_error(entries, from) == Some(e) {
                assert forall|j: int| from <= j < from implies #[trigger] entry_error(
                    entries,
                    j,
                ) is None by {}
            }
        }
    }
}

/// A content is judged in this order, and the first fault is reported: no line feed
/// at its end, no catalog in it, another text than the catalog's canonical one,
/// then the catalog's schema, type, profile, project, digest, its having entries,
/// and its entries.
pub proof fn contents_are_judged_in_order(
    bytes: Seq<u8>,
    c: crate::catalog::CatalogModel,
)
    ensures
        ({
            let error = content_error(bytes, Some(c));
            let ended = bytes.len() > 0 && bytes[bytes.len() - 1] == 10;
            let canonical = ended && bytes == vstd::utf8::encode_utf8(
                crate::catalog::catalog_text(c) + seq!['\n'],
            );
            let schema = canonical && c.schema == "maya.aoe.import-bindings.v1"@;
            let kind = schema && c.kind == "maya-aoe-import-bindings"@;
            let profile = kind && c.profile == "maya"@;
            let project = profile && c.project_path == "/home/aaiyer/maya/maya-main"@;
            let digest = project && crate::identity::is_hex_text(c.sha256, 64);
            let filled = digest && c.entries.len() > 0;
            &&& error == Some(ImportError::MissingLineFeed) <==> !ended
            &&& error == Some(ImportError::NotCanonical) <==> ended && !canonical
            &&& error == Some(ImportError::WrongSchema) <==> canonical && !schema
            &&& error == Some(ImportError::WrongType) <==> schema && !kind
            &&& error == Some(ImportError::WrongProfile) <==> kind && !profile
            &&& error == Some(ImportError::WrongProject) <==> profile && !project
            &&& error == Some(ImportError::InvalidDigest) <==> project && !digest
            &&& error == Some(ImportError::NoEntries) <==> digest && !filled
            &&& filled ==> error == first_entry_error(c.entries, 0)
            &&& error is None ==> filled
            &&& content_error(bytes, None) == Some(
                if ended {
                    ImportError::Malformed
                } else {
                    ImportError::MissingLineFeed
                },
            )
        }),
{
    assert(crate::catalog::catalog_text(c).push('\n') =~= crate::catalog::catalog_text(c) + seq![
        '\n',
    ]);
    entries_report_entry_faults(c.entries, 0);
}

proof fn entries_report_entry_faults(entries: Seq<crate::catalog::BindingModel>, from: int)
    requires
        0 <= from <= entries.len(),
    ensures
        first_entry_error(entries, from) matches Some(e) ==> e is InvalidSource || e is EmptyTitle
            || e is UntrimmedTitle || e is InvalidCodexId || e is DuplicateSource
            || e is DuplicateCodexId,
    decreases entries.len() - from,
{
    if from < entries.len() {
        entries_report_entry_faults(entries, from + 1);
    }
}

/// A content is accepted exactly where it is the canonical text of a catalog of
/// this schema, type, profile and project, with a digest and with entries, each of
/// which has a thread id, a title without white space at its ends and a canonical
/// agent session id, no two of which share a thread or an agent session.
pub proof fn contents_are_accepted_by_their_fields(
    bytes: Seq<u8>,
    c: crate::catalog::CatalogModel,
)
    ensures
        content_error(bytes, Some(c)) is None <==> {
            &&& bytes == vstd::utf8::encode_utf8(crate::catalog::catalog_text(c) + seq!['\n'])
            &&& c.schema == "maya.aoe.import-bindings.v1"@
            &&& c.kind == "maya-aoe-import-bindings"@
            &&& c.profile == "maya"@
            &&& c.project_path == "/home/aaiyer/maya/maya-main"@
            &&& crate::identity::is_hex_text(c.sha256, 64)
            &&& c.entries.len() > 0
            &&& forall|i: int|
                0 <= i < c.entries.len() ==> crate::identity::is_source_thread(
                    (#[trigger] c.entries[i]).source,
                ) && c.entries[i].title.len() > 0 && !crate::text::is_white_space(
                    c.entries[i].title[0],
                ) && !crate::text::is_white_space(
                    c.entries[i].title[c.entries[i].title.len() - 1],
                ) && crate::identity::is_canonical_uuid(c.entries[i].codex_id)
            &&& forall|i: int, j: int|
                0 <= i < c.entries.len() && 0 <= j < c.entries.len() && i != j ==> (
                #[trigger] c.entries[i]).source != (#[trigger] c.entries[j]).source
                    && c.entries[i].codex_id != c.entries[j].codex_id
        },
{
    crate::catalog::canonical_bytes_end_in_a_line_feed(c);
    entries_without_error(c.entries);
    assert(crate::catalog::catalog_text(c).push('\n') =~= crate::catalog::catalog_text(c) + seq![
        '\n',
    ]);
    let entries = c.entries;
    if has_valid_entries(entries) {
        assert forall|i: int| 0 <= i < entries.len() implies (#[trigger] entries[i]).title.len()
            > 0 by {
            assert(!is_blank(entries[i].title));
        }
        assert forall|i: int, j: int|
            0 <= i < entries.len() && 0 <= j < entries.len() && i != j implies (
        #[trigger] entries[i]).source != (#[trigger] entries[j]).source && entries[i].codex_id
            != entries[j].codex_id by {
            if i < j {
                assert(entries[i].source != entries[j].source);
            } else {
                assert(entries[j].source != entries[i].source);
            }
        }
    } else if forall|i: int|
        0 <= i < c.entries.len() ==> crate::identity::is_source_thread(
            (#[trigger] c.entries[i]).source,
        ) && c.entries[i].title.len() > 0 && !crate::text::is_white_space(c.entries[i].title[0])
            && !crate::text::is_white_space(c.entries[i].title[c.entries[i].title.len() - 1])
            && crate::identity::is_canonical_uuid(c.entries[i].codex_id) {
        assert forall|i: int| 0 <= i < entries.len() implies !is_blank(
            (#[trigger] entries[i]).title,
        ) && is_trimmed(entries[i].title) by {
            assert(!crate::text::is_white_space(entries[i].title[0]));
        }
    }
}

/// An import succeeds only from the expected catalog. A request with a thread id
/// and a digest, on an accepted content, fails exactly where the catalog's digest
/// is not the expected one, or else where no entry has the requested thread, which
/// is taken as it is spelled; whatever the thread.
pub proof fn imports_need_the_expected_catalog(
    source: Seq<char>,
    digest: Seq<char>,
    bytes: Seq<u8>,
    c: crate::catalog::CatalogModel,
)
    ensures
        ({
            let error = import_error(source, digest, bytes, Some(c));
            let asked = crate::identity::is_source_thread(source) && crate::identity::is_hex_text(
                digest,
                64,
            );
            let accepted = asked && content_error(bytes, Some(c)) is None;
            let expected = accepted && c.sha256 == digest;
            let bound = exists|i: int|
                0 <= i < c.entries.len() && (#[trigger] c.entries[i]).source == source;
            &&& error is None <==> expected && bound
            &&& error == Some(ImportError::DigestMismatch) <==> accepted && c.sha256 != digest
            &&& error == Some(ImportError::NotBound) <==> expected && !bound
            &&& asked && !accepted ==> error == content_error(bytes, Some(c))
            &&& !crate::identity::is_source_thread(source) ==> error == Some(
                ImportError::InvalidSource,
            )
            &&& crate::identity::is_source_thread(source) && !asked ==> error == Some(
                ImportError::InvalidDigest,
            )
        }),
        ({
            let error = import_error(source, digest, bytes, None);
            error is Some && (crate::identity::is_source_thread(source)
                && crate::identity::is_hex_text(digest, 64) ==> error == content_error(
                bytes,
                None,
            ))
        }),
{
    contents_are_judged_in_order(bytes, c);
    entries_report_entry_faults(c.entries, 0);
}

/// A request can be looked up exactly where it has a thread id and a digest of 64
/// hexadecimal digits; the thread id is looked at first.
pub proof fn requests_have_a_thread_and_a_digest(source: Seq<char>, digest: Seq<char>)
    ensures
        ({
            let thread = crate::identity::is_source_thread(source);
            let hex = crate::identity::is_hex_text(digest, 64);
            &&& request_error(source, digest) is None <==> thread && hex
            &&& request_error(source, digest) == Some(ImportError::InvalidSource) <==> !thread
            &&& request_error(source, digest) == Some(ImportError::InvalidDigest) <==> thread
                && !hex
        }),
{
}

/// A file that passes is read in full or not at all: its bytes count exactly where
/// there are as many as it said, and one that does not pass is refused whatever was
/// read.
pub proof fn files_are_read_in_full(facts: FileFacts, service_gid: u32, len: nat)
    ensures
        file_error(facts, service_gid) is None ==> (read_error(facts, service_gid, len) is None
            <==> len == facts.len),
        file_error(facts, service_gid) is None && len != facts.len ==> read_error(
            facts,
            service_gid,
            len,
        ) == Some(ImportError::ChangedWhileReading),
        file_error(facts, service_gid) is Some ==> read_error(facts, service_gid, len)
            == file_error(facts, service_gid),
{
}

}
