//! Resolution of a program and its direct imports from the files of a package.
use vstd::prelude::*;

use crate::snark::{
    address_of, check_reserved_name, derive_address, json_record_owner, outline_program,
    program_outline, read_record_owner, reserved_program_name,
};

verus! {

/// Why a program, an import or the records of a package could not be had.
#[derive(Clone, Copy, Debug, PartialEq, Eq, Structural)]
pub enum ResolveError {
    /// The package directory does not exist, or is not a directory.
    NotConfigured,
    /// The requested text is not a program identifier.
    InvalidProgramId,
    /// The program name is a keyword reserved by the protocol.
    ReservedName,
    /// The package holds no manifest.
    MissingManifest,
    /// The manifest could not be read.
    InvalidManifest,
    /// The package's main program could not be opened.
    InvalidPackage,
    /// No file of that name is in the imports directory.
    ImportNotFound,
    /// The file's text is not a program.
    ParseError,
    /// The inputs directory could not be read.
    InputsUnavailable,
    /// The private key is not a valid private key.
    InvalidPrivateKey,
}

/// A file of a package directory: its name and its text.
#[derive(Clone, Debug)]
pub struct NamedText {
    pub name: String,
    pub text: String,
}

/// What the manifest of a package says.
#[derive(Clone, Debug)]
pub enum ManifestState {
    /// There is no manifest file.
    Missing,
    /// There is a manifest file, but it could not be read.
    Unreadable,
    /// The manifest binds the package to this program identifier.
    Binds(String),
}

/// The files of a package directory that resolution reads.
#[derive(Clone, Debug)]
pub struct PackageFiles {
    /// Whether the package directory exists and is a directory.
    pub exists: bool,
    pub manifest: ManifestState,
    /// The text of the main program, as opened by the package loader, which
    /// checks it against the manifest; `None` where that failed.
    pub main_program: Option<String>,
    /// The files of the `imports` directory, named by program identifier.
    pub imports: Vec<NamedText>,
    /// The files of the `inputs` directory; `None` where it cannot be read.
    pub inputs: Option<Vec<NamedText>>,
}

/// A parsed program: its identifier, its declared imports in order, and its text.
#[derive(Clone, Debug)]
pub struct ProgramSource {
    pub id: String,
    pub imports: Vec<String>,
    pub text: String,
}

pub struct ProgramSourceView {
    pub id: Seq<char>,
    pub imports: Seq<Seq<char>>,
    pub text: Seq<char>,
}

impl View for ProgramSource {
    type V = ProgramSourceView;

    open spec fn view(&self) -> ProgramSourceView {
        ProgramSourceView { id: self.id@, imports: self.imports@.map_values(|s: String| s@), text: self.text@ }
    }
}

pub enum ManifestView {
    Missing,
    Unreadable,
    Binds(Seq<char>),
}

pub struct PackageFilesView {
    pub exists: bool,
    pub manifest: ManifestView,
    pub main_program: Option<Seq<char>>,
    pub imports: Seq<(Seq<char>, Seq<char>)>,
    pub inputs: Option<Seq<(Seq<char>, Seq<char>)>>,
}

pub open spec fn named_view(v: Seq<NamedText>) -> Seq<(Seq<char>, Seq<char>)> {
    v.map_values(|f: NamedText| (f.name@, f.text@))
}

impl View for PackageFiles {
    type V = PackageFilesView;

    open spec fn view(&self) -> PackageFilesView {
        PackageFilesView {
            exists: self.exists,
            manifest: match self.manifest {
                ManifestState::Missing => ManifestView::Missing,
                ManifestState::Unreadable => ManifestView::Unreadable,
                ManifestState::Binds(id) => ManifestView::Binds(id@),
            },
            main_program: match self.main_program {
                Some(t) => Some(t@),
                None => None,
            },
            imports: named_view(self.imports@),
            inputs: match self.inputs {
                Some(v) => Some(named_view(v@)),
                None => None,
            },
        }
    }
}

/// The text of the first file called `name`.
pub open spec fn lookup_file(files: Seq<(Seq<char>, Seq<char>)>, name: Seq<char>) -> Option<Seq<char>>
    decreases files.len(),
{
    if files.len() == 0 {
        None
    } else if files[0].0 == name {
        Some(files[0].1)
    } else {
        lookup_file(files.drop_first(), name)
    }
}

/// The program that a text with the outline `outline` gives.
pub open spec fn source_of(text: Seq<char>, outline: Option<(Seq<char>, Seq<Seq<char>>)>) -> Result<ProgramSourceView, ResolveError> {
    match outline {
        Some(o) => Ok(ProgramSourceView { id: o.0, imports: o.1, text }),
        None => Err(ResolveError::ParseError),
    }
}

/// A program text, parsed.
pub open spec fn parse_source(text: Seq<char>) -> Result<ProgramSourceView, ResolveError> {
    source_of(text, program_outline(text))
}

pub open spec fn outline_view(o: Option<(String, Vec<String>)>) -> Option<(Seq<char>, Seq<Seq<char>>)> {
    match o {
        Some(p) => Some((p.0@, p.1@.map_values(|s: String| s@))),
        None => None,
    }
}

/// The program that the imports directory holds under `id`.
pub open spec fn open_import(files: PackageFilesView, id: Seq<char>) -> Result<ProgramSourceView, ResolveError> {
    match lookup_file(files.imports, id) {
        Some(text) => parse_source(text),
        None => Err(ResolveError::ImportNotFound),
    }
}

/// Where the text of the program `id` is found in a package, given whether
/// its name is reserved (`None` where `id` is not a program identifier): the
/// main program where the manifest binds the package to `id`, otherwise the
/// imports directory.
pub open spec fn locate_spec(files: PackageFilesView, id: Seq<char>, reserved: Option<bool>) -> Result<Seq<char>, ResolveError> {
    if !files.exists {
        Err(ResolveError::NotConfigured)
    } else {
        match reserved {
            None => Err(ResolveError::InvalidProgramId),
            Some(true) => Err(ResolveError::ReservedName),
            Some(false) => match files.manifest {
                ManifestView::Missing => Err(ResolveError::MissingManifest),
                ManifestView::Unreadable => Err(ResolveError::InvalidManifest),
                ManifestView::Binds(main_id) => if main_id == id {
                    match files.main_program {
                        Some(text) => Ok(text),
                        None => Err(ResolveError::InvalidPackage),
                    }
                } else {
                    match lookup_file(files.imports, id) {
                        Some(text) => Ok(text),
                        None => Err(ResolveError::ImportNotFound),
                    }
                },
            },
        }
    }
}

/// The program that a package gives for `id`.
pub open spec fn load_spec(files: PackageFilesView, id: Seq<char>) -> Result<ProgramSourceView, ResolveError> {
    match locate_spec(files, id, reserved_program_name(id)) {
        Ok(text) => parse_source(text),
        Err(e) => Err(e),
    }
}

pub open spec fn source_result_view(r: Result<ProgramSource, ResolveError>) -> Result<ProgramSourceView, ResolveError> {
    match r {
        Ok(s) => Ok(s@),
        Err(e) => Err(e),
    }
}

/// One entry per declared import: its identifier, and what opening it gave.
pub open spec fn resolve_spec(files: PackageFilesView, imports: Seq<Seq<char>>) -> Seq<(Seq<char>, Result<ProgramSourceView, ResolveError>)> {
    Seq::new(imports.len(), |i: int| (imports[i], open_import(files, imports[i])))
}

pub open spec fn entries_view(v: Seq<(String, Result<ProgramSource, ResolveError>)>) -> Seq<(Seq<char>, Result<ProgramSourceView, ResolveError>)> {
    v.map_values(|e: (String, Result<ProgramSource, ResolveError>)| (e.0@, source_result_view(e.1)))
}

/// A record found in the inputs directory: its owner's address and its JSON text.
#[derive(Clone, Debug)]
pub struct OwnedRecord {
    pub owner: String,
    pub json: String,
}

/// Whether a file name carries the `json` extension.
pub open spec fn is_json_name(name: Seq<char>) -> bool {
    name.len() > 5 && name.subrange(name.len() - 5, name.len() as int) == ".json"@
}

/// What reading an input file as a record gives: `None` for a file without
/// the `json` extension or one that holds no record, otherwise the record's
/// owner, where it is public.
pub open spec fn owner_read(file: (Seq<char>, Seq<char>)) -> Option<Option<Seq<char>>> {
    if is_json_name(file.0) {
        json_record_owner(file.1)
    } else {
        None
    }
}

/// Each input file with what reading it as a record gave.
pub open spec fn scan_spec(files: Seq<(Seq<char>, Seq<char>)>) -> Seq<((Seq<char>, Seq<char>), Option<Option<Seq<char>>>)> {
    Seq::new(files.len(), |i: int| (files[i], owner_read(files[i])))
}

/// The records, in file order, among the first `n` scanned files, that
/// `address` owns publicly.
pub open spec fn select_prefix(
    scanned: Seq<((Seq<char>, Seq<char>), Option<Option<Seq<char>>>)>,
    address: Seq<char>,
    n: nat,
) -> Seq<(Seq<char>, Seq<char>)>
    decreases n,
{
    if n == 0 {
        Seq::empty()
    } else {
        let rest = select_prefix(scanned, address, (n - 1) as nat);
        if scanned[n - 1].1 == Some(Some(address)) {
            rest.push((address, scanned[n - 1].0.1))
        } else {
            rest
        }
    }
}

/// The records that the input files hold for the account of `private_key`.
pub open spec fn owned_spec(files: PackageFilesView, private_key: Seq<char>) -> Result<Seq<(Seq<char>, Seq<char>)>, ResolveError> {
    match files.inputs {
        None => Err(ResolveError::InputsUnavailable),
        Some(inputs) => match address_of(private_key) {
            None => Err(ResolveError::InvalidPrivateKey),
            Some(a) => Ok(select_prefix(scan_spec(inputs), a, inputs.len())),
        },
    }
}

/// An input file, with what reading it as a record gave.
#[derive(Clone, Debug)]
pub struct ScannedInput {
    pub file: NamedText,
    pub owner: Option<Option<String>>,
}

pub open spec fn owner_view(o: Option<Option<String>>) -> Option<Option<Seq<char>>> {
    match o {
        Some(Some(a)) => Some(Some(a@)),
        Some(None) => Some(None),
        None => None,
    }
}

pub open spec fn scanned_view(v: Seq<ScannedInput>) -> Seq<((Seq<char>, Seq<char>), Option<Option<Seq<char>>>)> {
    v.map_values(|s: ScannedInput| ((s.file.name@, s.file.text@), owner_view(s.owner)))
}

pub open spec fn records_view(v: Seq<OwnedRecord>) -> Seq<(Seq<char>, Seq<char>)> {
    v.map_values(|r: OwnedRecord| (r.owner@, r.json@))
}

/// `base` joined with the directory `name`.
pub open spec fn join_dir(base: Seq<char>, name: Seq<char>) -> Seq<char> {
    base + "/"@ + name
}


/// Relies on `str::ends_with`: whether `s` ends with `suffix`.
#[verifier::external_body]
fn ends_with(s: &str, suffix: &str) -> (r: bool)
    ensures
        r == (suffix@.len() <= s@.len() && s@.subrange(s@.len() - suffix@.len(), s@.len() as int) == suffix@),
{
    s.ends_with(suffix)
}

fn json_name(name: &String) -> (r: bool)
    ensures
        r == is_json_name(name@),
{
    let ext = ".json".to_owned();
    proof {
        reveal_strlit(".json");
    }
    let r = ends_with(name.as_str(), ext.as_str()) && !(*name == ext);
    proof {
        if name@.len() == 5 {
            assert(name@.subrange(0, 5) =~= name@);
        }
    }
    r
}

/// The text of the first file called `name`.
pub(crate) fn find_file(files: &Vec<NamedText>, name: &String) -> (r: Option<String>)
    ensures
        match r {
            Some(t) => lookup_file(named_view(files@), name@) == Some(t@),
            None => lookup_file(named_view(files@), name@) is None,
        },
{
    let ghost all = named_view(files@);
    let mut i: usize = 0;
    assert(all.subrange(0, all.len() as int) =~= all);
    while i < files.len()
        invariant
            i <= files@.len(),
            all == named_view(files@),
            lookup_file(all, name@) == lookup_file(all.subrange(i as int, all.len() as int), name@),
        decreases files.len() - i,
    {
        proof {
            let rest = all.subrange(i as int, all.len() as int);
            assert(rest.drop_first() =~= all.subrange(i + 1, all.len() as int));
            assert(rest[0] == (files@[i as int].name@, files@[i as int].text@));
        }
        if files[i].name == *name {
            return Some(files[i].text.clone());
        }
        i += 1;
    }
    proof {
        assert(all.subrange(i as int, all.len() as int).len() == 0);
    }
    None
}

/// The program that a text gives, from what parsing it yielded: its
/// identifier and declared imports, or nothing.
pub fn source_from_outline(text: &String, outline: Option<(String, Vec<String>)>) -> (r: Result<ProgramSource, ResolveError>)
    ensures
        source_result_view(r) == source_of(text@, outline_view(outline)),
{
    match outline {
        Some((id, imports)) => {
            let s = ProgramSource { id, imports, text: text.clone() };
            assert(s@.imports == imports@.map_values(|s: String| s@));
            Ok(s)
        },
        None => Err(ResolveError::ParseError),
    }
}

/// Parses a program text.
pub(crate) fn parse_program(text: &String) -> (r: Result<ProgramSource, ResolveError>)
    ensures
        source_result_view(r) == parse_source(text@),
{
    let outline = outline_program(text);
    source_from_outline(text, outline)
}

/// The records among scanned input files that `address` owns publicly, in file order.
pub fn select_owned(scanned: &Vec<ScannedInput>, address: &String) -> (r: Vec<OwnedRecord>)
    ensures
        records_view(r@) == select_prefix(scanned_view(scanned@), address@, scanned@.len()),
{
    let ghost all = scanned_view(scanned@);
    let mut records: Vec<OwnedRecord> = Vec::new();
    let mut i: usize = 0;
    while i < scanned.len()
        invariant
            i <= scanned@.len(),
            all == scanned_view(scanned@),
            records_view(records@) =~= select_prefix(all, address@, i as nat),
        decreases scanned.len() - i,
    {
        let s = &scanned[i];
        if let Some(Some(owner)) = &s.owner {
            if *owner == *address {
                records.push(OwnedRecord { owner: owner.clone(), json: s.file.text.clone() });
            }
        }
        assert(records_view(records@) =~= select_prefix(all, address@, (i + 1) as nat));
        i += 1;
    }
    records
}

/// A resolver over the files of one package directory.
#[derive(Clone, Debug)]
pub struct FileSystemResolver {
    local_config: String,
    files: PackageFiles,
}

impl FileSystemResolver {
    pub closed spec fn root(&self) -> Seq<char> {
        self.local_config@
    }

    pub closed spec fn files(&self) -> PackageFilesView {
        self.files@
    }

    /// A resolver for the package at `local_config`, whose files are `files`;
    /// fails where the directory does not exist.
    pub fn new(local_config: String, files: PackageFiles) -> (r: Result<Self, ResolveError>)
        ensures
            match r {
                Ok(res) => files.exists && res.root() == local_config@ && res.files() == files@,
                Err(e) => !files.exists && e == ResolveError::NotConfigured,
            },
    {
        if !files.exists {
            return Err(ResolveError::NotConfigured);
        }
        Ok(FileSystemResolver { local_config, files })
    }

    /// The directory that holds the local imports.
    pub fn import_directory(&self) -> (r: String)
        ensures
            r@ == join_dir(self.root(), "imports"@),
    {
        let mut d = self.local_config.clone();
        d.append("/");
        d.append("imports");
        d
    }

    /// The directory that holds the input records.
    pub fn inputs_directory(&self) -> (r: String)
        ensures
            r@ == join_dir(self.root(), "inputs"@),
    {
        let mut d = self.local_config.clone();
        d.append("/");
        d.append("inputs");
        d
    }

    /// Loads the program `program_id`: the package's main program where the
    /// manifest binds the package to it, otherwise the local import of that name.
    pub fn load_program(&self, program_id: &String) -> (r: Result<ProgramSource, ResolveError>)
        ensures
            source_result_view(r) == load_spec(self.files(), program_id@),
    {
        let reserved = check_reserved_name(program_id);
        match self.locate_program(program_id, reserved) {
            Ok(text) => parse_program(&text),
            Err(e) => Err(e),
        }
    }

    /// Finds the text of the program `program_id`, given whether its name is
    /// reserved (`None` where it is not a program identifier).
    pub fn locate_program(&self, program_id: &String, reserved: Option<bool>) -> (r: Result<String, ResolveError>)
        ensures
            match r {
                Ok(t) => locate_spec(self.files(), program_id@, reserved) == Ok::<_, ResolveError>(t@),
                Err(e) => locate_spec(self.files(), program_id@, reserved) == Err::<Seq<char>, _>(e),
            },
    {
        if !self.files.exists {
            return Err(ResolveError::NotConfigured);
        }
        match reserved {
            None => return Err(ResolveError::InvalidProgramId),
            Some(true) => return Err(ResolveError::ReservedName),
            Some(false) => {},
        }
        match &self.files.manifest {
            ManifestState::Missing => Err(ResolveError::MissingManifest),
            ManifestState::Unreadable => Err(ResolveError::InvalidManifest),
            ManifestState::Binds(main_id) => {
                if *main_id == *program_id {
                    match &self.files.main_program {
                        Some(text) => Ok(text.clone()),
                        None => Err(ResolveError::InvalidPackage),
                    }
                } else {
                    match find_file(&self.files.imports, program_id) {
                        Some(text) => Ok(text),
                        None => Err(ResolveError::ImportNotFound),
                    }
                }
            },
        }
    }

    /// Opens the import `id` from the imports directory.
    fn open_import(&self, id: &String) -> (r: Result<ProgramSource, ResolveError>)
        ensures
            source_result_view(r) == open_import(self.files(), id@),
    {
        match find_file(&self.files.imports, id) {
            Some(text) => parse_program(&text),
            None => Err(ResolveError::ImportNotFound),
        }
    }

    /// Opens each import that `program` declares, one level deep. Each entry
    /// records its own success or failure; one failure does not stop the others.
    pub fn resolve_program_imports(&self, program: &ProgramSource) -> (r: Result<
        Vec<(String, Result<ProgramSource, ResolveError>)>,
        ResolveError,
    >)
        ensures
            match r {
                Ok(v) => entries_view(v@) == resolve_spec(self.files(), program@.imports),
                Err(_) => false,
            },
    {
        let ghost want = resolve_spec(self.files(), program@.imports);
        let mut out: Vec<(String, Result<ProgramSource, ResolveError>)> = Vec::new();
        let mut i: usize = 0;
        while i < program.imports.len()
            invariant
                i <= program.imports@.len(),
                want == resolve_spec(self.files(), program@.imports),
                out@.len() == i,
                entries_view(out@) =~= want.subrange(0, i as int),
            decreases program.imports.len() - i,
        {
            let id = program.imports[i].clone();
            assert(program@.imports[i as int] == id@);
            let opened = self.open_import(&id);
            let ghost entry = (id@, source_result_view(opened));
            let ghost prev = out@;
            out.push((id, opened));
            assert(entries_view(out@) =~= entries_view(prev).push(entry));
            assert(entries_view(out@) =~= want.subrange(0, i + 1));
            i += 1;
        }
        assert(want.subrange(0, i as int) =~= want);
        Ok(out)
    }

    /// The records of the inputs directory that the account of `private_key`
    /// owns publicly. Files without the `json` extension, and files that do
    /// not hold a record, are passed over.
    pub fn find_owned_records(&self, private_key: &String) -> (r: Result<Vec<OwnedRecord>, ResolveError>)
        ensures
            match r {
                Ok(v) => owned_spec(self.files(), private_key@) == Ok::<_, ResolveError>(records_view(v@)),
                Err(e) => owned_spec(self.files(), private_key@) == Err::<Seq<(Seq<char>, Seq<char>)>, _>(e),
            },
    {
        let inputs = match &self.files.inputs {
            Some(v) => v,
            None => return Err(ResolveError::InputsUnavailable),
        };
        let address = match derive_address(private_key) {
            Some(a) => a,
            None => return Err(ResolveError::InvalidPrivateKey),
        };
        let ghost files = named_view(inputs@);
        let mut scanned: Vec<ScannedInput> = Vec::new();
        let mut i: usize = 0;
        while i < inputs.len()
            invariant
                i <= inputs@.len(),
                files == named_view(inputs@),
                scanned@.len() == i,
                scanned_view(scanned@) =~= scan_spec(files).subrange(0, i as int),
            decreases inputs.len() - i,
        {
            let file = &inputs[i];
            assert(files[i as int] == (file.name@, file.text@));
            let owner = if json_name(&file.name) {
                read_record_owner(&file.text)
            } else {
                None
            };
            assert(owner_view(owner) == owner_read(files[i as int]));
            let ghost prev = scanned@;
            scanned.push(ScannedInput { file: NamedText { name: file.name.clone(), text: file.text.clone() }, owner });
            assert(scanned_view(scanned@) =~= scanned_view(prev).push(scan_spec(files)[i as int]));
            assert(scanned_view(scanned@) =~= scan_spec(files).subrange(0, i + 1));
            i += 1;
        }
        assert(scan_spec(files).subrange(0, i as int) =~= scan_spec(files));
        let records = select_owned(&scanned, &address);
        Ok(records)
    }
}

/// Loading the identifier that the manifest binds gives the package's main
/// program, parsed from its text; the result depends on the files and the
/// identifier alone, so loading it again gives it again.
pub proof fn lemma_main_program_loads(files: PackageFilesView, id: Seq<char>, text: Seq<char>)
    requires
        files.exists,
        reserved_program_name(id) == Some(false),
        files.manifest == ManifestView::Binds(id),
        files.main_program == Some(text),
        program_outline(text) is Some,
    ensures
        load_spec(files, id) is Ok,
        load_spec(files, id) == parse_source(text),
        load_spec(files, id)->Ok_0.text == text,
{
}

/// Resolving the imports of a program gives one entry per declared import,
/// in declaration order, each under the identifier declared.
pub proof fn lemma_resolve_follows_declarations(files: PackageFilesView, imports: Seq<Seq<char>>)
    ensures
        resolve_spec(files, imports).len() == imports.len(),
        forall|i: int| 0 <= i < imports.len() ==> (#[trigger] resolve_spec(files, imports)[i]).0 == imports[i],
{
}

/// One import that cannot be opened, among imports that can, gives exactly
/// one failing entry; the other entries are those of the run without it.
pub proof fn lemma_one_bad_import(files: PackageFilesView, imports: Seq<Seq<char>>, k: int, bad: Seq<char>)
    requires
        0 <= k <= imports.len(),
        forall|i: int| 0 <= i < imports.len() ==> open_import(files, #[trigger] imports[i]) is Ok,
        open_import(files, bad) is Err,
    ensures
        ({
            let with_bad = resolve_spec(files, imports.insert(k, bad));
            &&& with_bad.len() == imports.len() + 1
            &&& forall|j: int| 0 <= j < with_bad.len() ==> ((#[trigger] with_bad[j]).1 is Err <==> j == k)
            &&& with_bad.remove(k) == resolve_spec(files, imports)
        }),
{
    let ins = imports.insert(k, bad);
    let with_bad = resolve_spec(files, ins);
    assert forall|j: int| 0 <= j < with_bad.len() implies ((#[trigger] with_bad[j]).1 is Err <==> j == k) by {
        if j < k {
            assert(ins[j] == imports[j]);
        } else if j > k {
            assert(ins[j] == imports[j - 1]);
        }
    }
    assert(with_bad.remove(k) =~= resolve_spec(files, imports));
}

proof fn lemma_selected_owner(files: Seq<(Seq<char>, Seq<char>)>, address: Seq<char>, n: nat)
    requires
        n <= files.len(),
    ensures
        forall|j: int| 0 <= j < select_prefix(scan_spec(files), address, n).len() ==> {
            let rec = #[trigger] select_prefix(scan_spec(files), address, n)[j];
            rec.0 == address && json_record_owner(rec.1) == Some(Some(address))
        },
    decreases n,
{
    if n > 0 {
        lemma_selected_owner(files, address, (n - 1) as nat);
    }
}

/// Every record found belongs publicly to the address of the private key:
/// a record of any other owner, or a file that holds no record, is never
/// returned.
pub proof fn lemma_found_records_are_owned(files: PackageFilesView, private_key: Seq<char>)
    ensures
        owned_spec(files, private_key) matches Ok(recs) ==> forall|j: int| 0 <= j < recs.len() ==> {
            &&& address_of(private_key) == Some((#[trigger] recs[j]).0)
            &&& json_record_owner(recs[j].1) == Some(Some(recs[j].0))
        },
{
    if let (Some(inputs), Some(a)) = (files.inputs, address_of(private_key)) {
        lemma_selected_owner(inputs, a, inputs.len());
    }
}

} // verus!
