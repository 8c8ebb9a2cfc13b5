//! How a state is read from and written to its file.

use crate::json;
use crate::state;
use crate::state::PersistedState;
use crate::text;
use vstd::prelude::*;
use vstd::string::*;

verus! {

/// What is left to do once the text of a state file has been read.
#[derive(Debug)]
pub enum LoadStep {
    /// Nothing: this is the state.
    Ready(PersistedState),
    /// Decode this value, which has the current layout, and adopt what it holds.
    Decode(serde_json::Value),
}

/// Why a state file cannot be used.
#[derive(Debug)]
pub enum LoadError {
    /// Its text is not JSON.
    Parse(serde_json::Error),
}

/// The layout version that a document states; one where it states none.
pub open spec fn stated_schema(document: Map<Seq<Seq<char>>, json::Part>) -> u64 {
    match json::unsigned_at(document, seq!["schema_version"@]) {
        Some(version) => version,
        None => 1,
    }
}

/// The state that remembers nothing but what is installed and what can be rolled back to.
pub open spec fn legacy(
    installed_version: Option<Seq<char>>,
    last_known_good_version: Option<Seq<char>>,
    rollback_package_path: Option<Seq<char>>,
    auto_install: bool,
) -> state::StateView {
    state::StateView {
        installed_version: match installed_version {
            Some(version) => version,
            None => state::UNKNOWN_VERSION@,
        },
        last_known_good_version,
        artifact_paths: state::ArtifactView { rollback_package_path, ..state::no_artifacts() },
        ..state::fresh(auto_install)
    }
}

/// What is kept of a document in an outdated layout.
pub open spec fn migrated(
    document: Map<Seq<Seq<char>>, json::Part>,
    auto_install: bool,
) -> state::StateView {
    legacy(
        json::text_at(document, seq!["installed_version"@]),
        json::text_at(document, seq!["last_known_good_version"@]),
        json::text_at(document, seq!["artifact_paths"@, "rollback_package_path"@]),
        auto_install,
    )
}

/// A decoded state as it is taken over: in the current layout, with the current setting.
pub open spec fn adopted(decoded: state::StateView, auto_install: bool) -> state::StateView {
    state::StateView {
        schema_version: state::SCHEMA_VERSION,
        auto_install_on_app_exit: auto_install,
        ..decoded
    }
}

/// What follows from a document that has been read.
pub open spec fn resumes(
    step: LoadStep,
    document: Map<Seq<Seq<char>>, json::Part>,
    auto_install: bool,
) -> bool {
    if stated_schema(document) < state::SCHEMA_VERSION {
        step matches LoadStep::Ready(loaded) && loaded@ == migrated(document, auto_install)
    } else {
        step matches LoadStep::Decode(value) && json::parts(value) == document
    }
}

/// What loading gives for the contents of a state file; `None` where there is no such file.
pub open spec fn loads(
    loaded: Result<LoadStep, LoadError>,
    contents: Option<Seq<char>>,
    auto_install: bool,
) -> bool {
    match contents {
        None => loaded matches Ok(LoadStep::Ready(fresh)) && fresh@ == state::fresh(auto_install),
        Some(contents) => match json::document(contents) {
            Some(document) => loaded matches Ok(step) && resumes(step, document, auto_install),
            None => loaded matches Err(LoadError::Parse(_)),
        },
    }
}

/// The mode of a state file: its owner alone reads and writes it.
pub const PRIVATE_MODE: u32 = 0o600;

/// One step of saving a state. The temporary file lies in the directory of the state file.
#[derive(Debug, Clone, PartialEq, Eq)]
pub enum SaveAction {
    /// Create the directory of the state file, and those above it.
    CreateParent,
    /// Write a whole text to the temporary file.
    WriteTemporary { name: String, contents: String },
    /// Set the mode of the temporary file.
    RestrictTemporary { name: String, mode: u32 },
    /// Rename the temporary file to the state file.
    ReplaceStateFile { name: String },
}

/// A step of saving a state, with the texts that it holds.
pub enum SaveStep {
    CreateParent,
    WriteTemporary { name: Seq<char>, contents: Seq<char> },
    RestrictTemporary { name: Seq<char>, mode: u32 },
    ReplaceStateFile { name: Seq<char> },
}

impl View for SaveAction {
    type V = SaveStep;

    open spec fn view(&self) -> SaveStep {
        match *self {
            SaveAction::CreateParent => SaveStep::CreateParent,
            SaveAction::WriteTemporary { name, contents } => SaveStep::WriteTemporary {
                name: name@,
                contents: contents@,
            },
            SaveAction::RestrictTemporary { name, mode } => SaveStep::RestrictTemporary {
                name: name@,
                mode,
            },
            SaveAction::ReplaceStateFile { name } => SaveStep::ReplaceStateFile { name: name@ },
        }
    }
}

/// Why a state cannot be saved at all.
#[derive(Debug, Clone, Copy, PartialEq, Eq, Structural)]
pub enum SaveError {
    /// The path of the state file has no directory.
    NoParent,
}

impl SaveError {
    /// The error in words.
    pub fn message(&self) -> (text: String)
        ensures
            text@ == "state path has no parent"@,
    {
        String::from_str("state path has no parent")
    }
}

/// The name of the temporary file of a process.
pub open spec fn temporary_name(process_id: u32) -> Seq<char> {
    ".state-"@ + text::decimal(process_id as nat) + ".tmp"@
}

/// The steps that save a document.
pub open spec fn save_steps(process_id: u32, document: Seq<char>) -> Seq<SaveStep> {
    let name = temporary_name(process_id);
    seq![
        SaveStep::CreateParent,
        SaveStep::WriteTemporary { name, contents: document + "\n"@ },
        SaveStep::RestrictTemporary { name, mode: PRIVATE_MODE },
        SaveStep::ReplaceStateFile { name },
    ]
}

/// Whether a document that states this layout version cannot be resumed. One that states none
/// has the first layout.
pub fn is_outdated(stated_version: Option<u64>) -> (answer: bool)
    ensures
        answer == (match stated_version {
            Some(version) => version < state::SCHEMA_VERSION,
            None => true,
        }),
{
    match stated_version {
        Some(version) => version < state::SCHEMA_VERSION as u64,
        None => true,
    }
}

fn temporary_file(process_id: u32) -> (name: String)
    ensures
        name@ == temporary_name(process_id),
{
    let mut name = String::from_str(".state-");
    name.append(text::decimal_text(process_id as u64).as_str());
    name.append(".tmp");
    name
}

impl PersistedState {
    /// Reads the text of a state file; `None` where there is no such file.
    ///
    /// A candidate in an outdated layout cannot be resumed safely: of such a document only the
    /// installed and rollback facts are kept, and the pending candidate goes with the next save.
    pub fn load_or_default(contents: Option<&str>, auto_install: bool) -> (loaded: Result<
        LoadStep,
        LoadError,
    >)
        ensures
            loads(
                loaded,
                match contents {
                    Some(contents) => Some(contents@),
                    None => None,
                },
                auto_install,
            ),
    {
        match contents {
            None => Ok(LoadStep::Ready(Self::new(auto_install))),
            Some(contents) => match json::parse(contents) {
                Ok(value) => Ok(Self::resume(value, auto_install)),
                Err(error) => Err(LoadError::Parse(error)),
            },
        }
    }

    /// Decides what to make of a document that has been read.
    pub fn resume(value: serde_json::Value, auto_install: bool) -> (step: LoadStep)
        ensures
            resumes(step, json::parts(value), auto_install),
            step matches LoadStep::Decode(kept) ==> kept == value,
    {
        if is_outdated(json::unsigned_member(&value, "schema_version")) {
            let rollback_package_path = json::text_addressed(
                &value,
                "/artifact_paths/rollback_package_path",
            );
            proof {
                lemma_rollback_pointer();
            }
            LoadStep::Ready(
                Self::from_legacy(
                    json::text_member(&value, "installed_version"),
                    json::text_member(&value, "last_known_good_version"),
                    rollback_package_path,
                    auto_install,
                ),
            )
        } else {
            LoadStep::Decode(value)
        }
    }

    /// The state that keeps the given facts and nothing else.
    pub fn from_legacy(
        installed_version: Option<String>,
        last_known_good_version: Option<String>,
        rollback_package_path: Option<String>,
        auto_install: bool,
    ) -> (migrated: Self)
        ensures
            migrated@ == legacy(
                text::text_of(installed_version),
                text::text_of(last_known_good_version),
                text::text_of(rollback_package_path),
                auto_install,
            ),
    {
        let mut migrated = Self::new(auto_install);
        if let Some(version) = installed_version {
            migrated.installed_version = version;
        }
        migrated.last_known_good_version = last_known_good_version;
        migrated.artifact_paths.rollback_package_path = rollback_package_path;
        migrated
    }

    /// Takes a decoded state over: in the current layout, with the current setting.
    pub fn adopt(self, auto_install: bool) -> (state: Self)
        ensures
            state@ == adopted(self@, auto_install),
    {
        let mut state = self;
        state.schema_version = state::SCHEMA_VERSION;
        state.auto_install_on_app_exit = auto_install;
        state
    }

    /// The steps, in order, that save a state whose encoding is `document`. Each is taken only
    /// once the one before it has succeeded.
    pub fn save_updater(has_parent: bool, process_id: u32, document: &str) -> (plan: Result<
        Vec<SaveAction>,
        SaveError,
    >)
        ensures
            match plan {
                Ok(actions) => has_parent && actions@.map_values(|action: SaveAction| action@)
                    == save_steps(process_id, document@),
                Err(error) => !has_parent && error == SaveError::NoParent,
            },
    {
        if !has_parent {
            return Err(SaveError::NoParent);
        }
        let mut contents = String::from_str(document);
        contents.append("\n");
        let mut actions: Vec<SaveAction> = Vec::new();
        actions.push(SaveAction::CreateParent);
        actions.push(SaveAction::WriteTemporary { name: temporary_file(process_id), contents });
        actions.push(
            SaveAction::RestrictTemporary { name: temporary_file(process_id), mode: PRIVATE_MODE },
        );
        actions.push(SaveAction::ReplaceStateFile { name: temporary_file(process_id) });
        assert(actions@.map_values(|action: SaveAction| action@) =~= save_steps(
            process_id,
            document@,
        ));
        Ok(actions)
    }
}

proof fn lemma_rollback_pointer()
    ensures
        json::pointer(seq!["artifact_paths"@, "rollback_package_path"@])
            == "/artifact_paths/rollback_package_path"@,
        json::plain_name("artifact_paths"@),
        json::plain_name("rollback_package_path"@),
{
    reveal_strlit("artifact_paths");
    reveal_strlit("rollback_package_path");
    reveal_strlit("/artifact_paths/rollback_package_path");
    reveal_with_fuel(json::pointer, 3);
    let path = seq!["artifact_paths"@, "rollback_package_path"@];
    assert(path.drop_last() =~= seq!["artifact_paths"@]);
    assert(path.drop_last().drop_last() =~= seq![]);
    assert(json::pointer(path) =~= "/artifact_paths/rollback_package_path"@);
}

/// Of a document in an outdated layout nothing pending survives: no candidate, no transaction and
/// no consent to install; what is installed and what can be rolled back to does.
pub proof fn law_migration_keeps_only_the_rollback_facts(
    document: Map<Seq<Seq<char>>, json::Part>,
    auto_install: bool,
)
    ensures
        ({
            let state = migrated(document, auto_install);
            &&& state.schema_version == state::SCHEMA_VERSION
            &&& state.auto_install_on_app_exit == auto_install
            &&& state.candidate_version is None
            &&& state.status == state::UpdateStatus::Idle
            &&& state.install_transaction is None
            &&& !state.waiting_for_app_exit_auto_install
            &&& !state.install_after_app_exit_requested
            &&& state.artifact_paths.package_path is None
            &&& state.last_known_good_version == json::text_at(
                document,
                seq!["last_known_good_version"@],
            )
            &&& state.artifact_paths.rollback_package_path == json::text_at(
                document,
                seq!["artifact_paths"@, "rollback_package_path"@],
            )
            &&& json::text_at(document, seq!["installed_version"@]) matches Some(version)
                ==> state.installed_version == version
        }),
{
}

/// A state that was saved in the current layout comes back unchanged under the same setting, and
/// loading it any number of times is loading it once.
pub proof fn law_adopting_a_saved_state_changes_nothing(
    state: state::StateView,
    auto_install: bool,
)
    ensures
        state.schema_version == state::SCHEMA_VERSION ==> adopted(
            state,
            state.auto_install_on_app_exit,
        ) == state,
        adopted(adopted(state, auto_install), auto_install) == adopted(state, auto_install),
{
}

/// Loading neither grants consent to install nor lifts a block, and it leaves the status and the
/// transaction alone.
pub proof fn law_adopting_grants_no_consent(decoded: state::StateView, auto_install: bool)
    ensures
        ({
            let state = adopted(decoded, auto_install);
            &&& state.install_after_app_exit_requested == decoded.install_after_app_exit_requested
            &&& state.waiting_for_app_exit_auto_install
                == decoded.waiting_for_app_exit_auto_install
            &&& state::auth_retry_blocked(state) == state::auth_retry_blocked(decoded)
            &&& state.status == decoded.status
            &&& state.install_transaction == decoded.install_transaction
        }),
{
}

/// A document that states the layout version of a state in the current layout, or in a later one,
/// is resumed: nothing of it is dropped.
pub proof fn law_current_documents_are_resumed(
    state: state::StateView,
    document: Map<Seq<Seq<char>>, json::Part>,
    auto_install: bool,
    step: LoadStep,
)
    requires
        state.schema_version >= state::SCHEMA_VERSION,
        json::unsigned_at(document, seq!["schema_version"@]) == Some(state.schema_version as u64),
        resumes(step, document, auto_install),
    ensures
        step matches LoadStep::Decode(value) && json::parts(value) == document,
{
}

/// A file: what it holds, and its mode where that has been set.
pub struct File {
    pub contents: Seq<char>,
    pub mode: Option<u32>,
}

/// The files of the state's directory, each under its name, after a step of saving has succeeded.
pub open spec fn files_after(
    files: Map<Seq<char>, File>,
    state_file: Seq<char>,
    step: SaveStep,
) -> Map<Seq<char>, File> {
    match step {
        SaveStep::CreateParent => files,
        SaveStep::WriteTemporary { name, contents } => files.insert(
            name,
            File {
                contents,
                mode: if files.contains_key(name) {
                    files[name].mode
                } else {
                    None
                },
            },
        ),
        SaveStep::RestrictTemporary { name, mode } => files.insert(
            name,
            File { contents: files[name].contents, mode: Some(mode) },
        ),
        SaveStep::ReplaceStateFile { name } => files.remove(name).insert(state_file, files[name]),
    }
}

/// The files after the first so many steps.
pub open spec fn files_after_steps(
    files: Map<Seq<char>, File>,
    state_file: Seq<char>,
    steps: Seq<SaveStep>,
    count: nat,
) -> Map<Seq<char>, File>
    decreases count,
{
    if count == 0 {
        files
    } else {
        files_after(
            files_after_steps(files, state_file, steps, (count - 1) as nat),
            state_file,
            steps[count - 1],
        )
    }
}

/// However far saving comes, the state file is either as it was or holds the whole new document,
/// readable by its owner alone; and no file but it and the temporary one is touched.
pub proof fn law_saving_is_atomic(
    files: Map<Seq<char>, File>,
    state_file: Seq<char>,
    process_id: u32,
    document: Seq<char>,
    count: nat,
)
    requires
        state_file != temporary_name(process_id),
        count <= save_steps(process_id, document).len(),
    ensures
        ({
            let after = files_after_steps(
                files,
                state_file,
                save_steps(process_id, document),
                count,
            );
            let complete = count == save_steps(process_id, document).len();
            let temporary = temporary_name(process_id);
            &&& !complete ==> after.remove(temporary) == files.remove(temporary)
            &&& complete ==> after == files.remove(temporary).insert(
                state_file,
                File { contents: document + "\n"@, mode: Some(PRIVATE_MODE) },
            )
        }),
{
    reveal_with_fuel(files_after_steps, 5);
    let temporary = temporary_name(process_id);
    let after = files_after_steps(files, state_file, save_steps(process_id, document), count);
    if count < 4 {
        assert(after.remove(temporary) =~= files.remove(temporary));
    } else {
        assert(after =~= files.remove(temporary).insert(
            state_file,
            File { contents: document + "\n"@, mode: Some(PRIVATE_MODE) },
        ));
    }
}

/// The files after a step of saving was cut short, which can leave anything or nothing in the
/// temporary file. Renaming a file happens as a whole or not at all.
pub open spec fn files_cut_short(
    files: Map<Seq<char>, File>,
    step: SaveStep,
    left: Option<File>,
) -> Map<Seq<char>, File> {
    match step {
        SaveStep::CreateParent => files,
        SaveStep::WriteTemporary { name, .. } => match left {
            Some(file) => files.insert(name, file),
            None => files.remove(name),
        },
        SaveStep::RestrictTemporary { name, .. } => match left {
            Some(file) => files.insert(name, file),
            None => files.remove(name),
        },
        SaveStep::ReplaceStateFile { .. } => files,
    }
}

/// Whichever step of saving is cut short, and whatever it leaves in the temporary file, all other
/// files are as they were, the state file among them.
pub proof fn law_interrupted_saving_touches_the_temporary_file_alone(
    files: Map<Seq<char>, File>,
    state_file: Seq<char>,
    process_id: u32,
    document: Seq<char>,
    count: nat,
    left: Option<File>,
)
    requires
        state_file != temporary_name(process_id),
        count < save_steps(process_id, document).len(),
    ensures
        ({
            let steps = save_steps(process_id, document);
            let before = files_after_steps(files, state_file, steps, count);
            let after = files_cut_short(before, steps[count as int], left);
            let temporary = temporary_name(process_id);
            &&& after.remove(temporary) == files.remove(temporary)
            &&& after.contains_key(state_file) == files.contains_key(state_file)
            &&& files.contains_key(state_file) ==> after[state_file] == files[state_file]
        }),
{
    let steps = save_steps(process_id, document);
    let before = files_after_steps(files, state_file, steps, count);
    let after = files_cut_short(before, steps[count as int], left);
    let temporary = temporary_name(process_id);
    law_saving_is_atomic(files, state_file, process_id, document, count);
    assert(after.remove(temporary) =~= before.remove(temporary));
    assert(after.contains_key(state_file) == after.remove(temporary).contains_key(state_file));
    assert(files.contains_key(state_file) == files.remove(temporary).contains_key(state_file));
    if files.contains_key(state_file) {
        assert(after[state_file] == after.remove(temporary)[state_file]);
        assert(files[state_file] == files.remove(temporary)[state_file]);
    }
}

/// Loading what was saved gives the state back, in the current layout and with the current
/// setting, for every encoding that is faithful to the state: its text is JSON that states the
/// state's layout version, and decoding the value that it denotes gives the state.
pub proof fn law_faithfully_encoded_state_comes_back(
    state: state::StateView,
    encoding: Seq<char>,
    decode: spec_fn(serde_json::Value) -> Option<state::StateView>,
    files: Map<Seq<char>, File>,
    state_file: Seq<char>,
    process_id: u32,
    loaded: Result<LoadStep, LoadError>,
    auto_install: bool,
)
    requires
        state.schema_version >= state::SCHEMA_VERSION,
        state_file != temporary_name(process_id),
        json::document(encoding + "\n"@) matches Some(document) && json::unsigned_at(
            document,
            seq!["schema_version"@],
        ) == Some(state.schema_version as u64) && (forall|value: serde_json::Value|
            #[trigger] json::parts(value) == document ==> decode(value) == Some(state)),
        ({
            let steps = save_steps(process_id, encoding);
            let saved = files_after_steps(files, state_file, steps, steps.len());
            loads(loaded, Some(saved[state_file].contents), auto_install)
        }),
    ensures
        ({
            &&& loaded matches Ok(LoadStep::Decode(value))
            &&& decode(value) matches Some(decoded)
            &&& adopted(decoded, auto_install) == (state::StateView {
                schema_version: state::SCHEMA_VERSION,
                auto_install_on_app_exit: auto_install,
                ..state
            })
            &&& state::auth_retry_blocked(adopted(decoded, auto_install))
                == state::auth_retry_blocked(state)
        }),
{
    law_saving_is_atomic(
        files,
        state_file,
        process_id,
        encoding,
        save_steps(process_id, encoding).len(),
    );
}

/// Without a state file loading succeeds, with the new state of an updater that has the setting
/// it was given: idle, in the current layout, with no candidate, no transaction, no consent and
/// nothing known to be installed or to roll back to.
pub proof fn law_first_start_keeps_the_setting(
    loaded: Result<LoadStep, LoadError>,
    auto_install: bool,
)
    requires
        loads(loaded, None, auto_install),
    ensures
        loaded is Ok,
        loaded->Ok_0 is Ready,
        ({
            let state = loaded->Ok_0->Ready_0@;
            &&& state.auto_install_on_app_exit == auto_install
            &&& state.schema_version == 2
            &&& state.status == state::UpdateStatus::Idle
            &&& state.installed_version == "unknown"@
            &&& state.candidate_version is None
            &&& state.install_transaction is None
            &&& state.error_message is None
            &&& state.last_known_good_version is None
            &&& state.artifact_paths.package_path is None
            &&& state.artifact_paths.rollback_package_path is None
            &&& !state.waiting_for_app_exit_auto_install
            &&& !state.install_after_app_exit_requested
        }),
{
}

/// Whatever the file holds, a state that loading hands back at once has the setting that loading
/// was given and the current layout, and nothing is pending in it: no candidate, no transaction,
/// no consent, no block, no error.
pub proof fn law_loaded_state_has_the_setting(
    loaded: Result<LoadStep, LoadError>,
    contents: Option<Seq<char>>,
    auto_install: bool,
)
    requires
        loads(loaded, contents, auto_install),
        loaded is Ok,
        loaded->Ok_0 is Ready,
    ensures
        ({
            let state = loaded->Ok_0->Ready_0@;
            &&& state.auto_install_on_app_exit == auto_install
            &&& state.schema_version == 2
            &&& state.status == state::UpdateStatus::Idle
            &&& state.installed_upstream_version is None
            &&& state.installed_upstream_sha256 is None
            &&& state.candidate_version is None
            &&& state.candidate_architecture is None
            &&& state.candidate_repository_path is None
            &&& state.upstream_package_sha256 is None
            &&& state.install_transaction is None
            &&& state.last_check_at is None
            &&& state.last_successful_check_at is None
            &&& state.artifact_paths.upstream_package_path is None
            &&& state.artifact_paths.workspace_dir is None
            &&& state.artifact_paths.package_path is None
            &&& state.error_message is None
            &&& !state.waiting_for_app_exit_auto_install
            &&& state.last_known_good_upstream_version is None
            &&& state.last_known_good_upstream_sha256 is None
            &&& state.rollback_blocked_candidate_version is None
            &&& state.rollback_blocked_package_sha256 is None
            &&& state.install_auth_blocked_package_sha256 is None
            &&& !state.install_after_app_exit_requested
        }),
{
}

/// A file is refused exactly where its text is no JSON.
pub proof fn law_only_malformed_files_are_refused(
    loaded: Result<LoadStep, LoadError>,
    contents: Option<Seq<char>>,
    auto_install: bool,
)
    requires
        loads(loaded, contents, auto_install),
    ensures
        loaded is Err <==> contents is Some && json::document(contents->0) is None,
{
}

/// A file in the first layout, or in none that it states, gives a state at once, with what was
/// installed and what can be rolled back to read from their places in the file; one that states
/// the second layout or a later one is to be decoded, whole.
pub proof fn law_layout_decides_what_is_kept(
    loaded: Result<LoadStep, LoadError>,
    contents: Seq<char>,
    auto_install: bool,
)
    requires
        loads(loaded, Some(contents), auto_install),
        json::document(contents) is Some,
    ensures
        ({
            let document = json::document(contents)->0;
            let version = json::unsigned_at(document, seq!["schema_version"@]);
            let installed = json::text_at(document, seq!["installed_version"@]);
            if version is Some && version->0 >= 2 {
                &&& loaded is Ok
                &&& loaded->Ok_0 is Decode
                &&& json::parts(loaded->Ok_0->Decode_0) == document
            } else {
                &&& loaded is Ok
                &&& loaded->Ok_0 is Ready
                &&& installed is Some ==> loaded->Ok_0->Ready_0@.installed_version == installed->0
                &&& installed is None ==> loaded->Ok_0->Ready_0@.installed_version == "unknown"@
                &&& loaded->Ok_0->Ready_0@.last_known_good_version == json::text_at(
                    document,
                    seq!["last_known_good_version"@],
                )
                &&& loaded->Ok_0->Ready_0@.artifact_paths.rollback_package_path == json::text_at(
                    document,
                    seq!["artifact_paths"@, "rollback_package_path"@],
                )
            }
        }),
{
}

/// What is kept of an outdated state is what was handed over, each fact in its place.
pub proof fn law_legacy_facts_keep_their_places(
    installed_version: Option<Seq<char>>,
    last_known_good_version: Option<Seq<char>>,
    rollback_package_path: Option<Seq<char>>,
    auto_install: bool,
)
    ensures
        ({
            let state = legacy(
                installed_version,
                last_known_good_version,
                rollback_package_path,
                auto_install,
            );
            &&& installed_version is Some ==> state.installed_version == installed_version->0
            &&& installed_version is None ==> state.installed_version == "unknown"@
            &&& state.last_known_good_version == last_known_good_version
            &&& state.artifact_paths.rollback_package_path == rollback_package_path
            &&& state.artifact_paths.package_path is None
            &&& state.artifact_paths.workspace_dir is None
            &&& state.artifact_paths.upstream_package_path is None
            &&& state.auto_install_on_app_exit == auto_install
            &&& state.schema_version == 2
            &&& (state::StateView {
                installed_version: "unknown"@,
                last_known_good_version: None,
                artifact_paths: state::no_artifacts(),
                ..state
            }) == state::fresh(auto_install)
        }),
{
}

/// Taking a decoded state over sets its layout and its setting, and nothing else.
pub proof fn law_adopting_renews_layout_and_setting(decoded: state::StateView, auto_install: bool)
    ensures
        adopted(decoded, auto_install).schema_version == 2,
        adopted(decoded, auto_install).auto_install_on_app_exit == auto_install,
        (state::StateView {
            schema_version: decoded.schema_version,
            auto_install_on_app_exit: decoded.auto_install_on_app_exit,
            ..adopted(decoded, auto_install)
        }) == decoded,
{
}

/// The temporary file's name holds the number of the process between its fixed ends, so no two
/// processes share one.
pub proof fn law_temporary_name_names_the_process(process_id: u32)
    ensures
        ({
            let name = temporary_name(process_id);
            &&& name.take(7) == ".state-"@
            &&& name.skip(name.len() - 4) == ".tmp"@
            &&& text::unsigned_value(name.subrange(7, name.len() - 4)) == Some(process_id as u64)
        }),
{
    reveal_strlit(".state-");
    reveal_strlit(".tmp");
    let name = temporary_name(process_id);
    text::law_decimal_reads_back(process_id as u64);
    assert(name.take(7) =~= ".state-"@);
    assert(name.skip(name.len() - 4) =~= ".tmp"@);
    assert(name.subrange(7, name.len() - 4) =~= text::decimal(process_id as nat));
}

/// Saving makes the directory, writes the document and a line feed to the temporary file, makes
/// that file its owner's alone, and only then puts it in the place of the state file.
pub proof fn law_saving_takes_four_steps(process_id: u32, document: Seq<char>)
    ensures
        ({
            let steps = save_steps(process_id, document);
            let name = temporary_name(process_id);
            &&& steps.len() == 4
            &&& steps[0] is CreateParent
            &&& steps[1] is WriteTemporary
            &&& steps[1]->WriteTemporary_name == name
            &&& steps[1]->contents == document.push('\n')
            &&& steps[2] is RestrictTemporary
            &&& steps[2]->RestrictTemporary_name == name
            &&& steps[2]->mode == 0o600
            &&& steps[3] is ReplaceStateFile
            &&& steps[3]->ReplaceStateFile_name == name
        }),
{
    reveal_strlit("\n");
    assert(document + "\n"@ =~= document.push('\n'));
}

/// What is seen of a step of saving is the step itself.
pub proof fn law_save_actions_are_seen_as_they_are(action: SaveAction)
    ensures
        action is CreateParent ==> action@ is CreateParent,
        action matches SaveAction::WriteTemporary { name, contents } ==> action@
            == (SaveStep::WriteTemporary { name: name@, contents: contents@ }),
        action matches SaveAction::RestrictTemporary { name, mode } ==> action@
            == (SaveStep::RestrictTemporary { name: name@, mode }),
        action matches SaveAction::ReplaceStateFile { name } ==> action@
            == (SaveStep::ReplaceStateFile { name: name@ }),
{
}

} // verus!
