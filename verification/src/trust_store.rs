//! Installing the root certificate in the trust store of the operating system,
//! removing it, and asking whether it is there.
//!
//! Each platform has a tool of its own for this. The library does not run it:
//! it says which command comes next, and is told how the last one ended. An
//! operation is a function of the answers so far, and the caller runs the
//! loop: ask, perform, append the answer, ask again.

use crate::issuer::ROOT_CERTIFICATE_PATH;
use vstd::prelude::*;

verus! {

/// The name under which the root certificate is known to the macOS keychain.
pub const CERTIFICATE_NAME: &'static str = "proxylea_cert";

/// The system keychain of macOS.
pub const KEYCHAIN: &'static str = "/Library/Keychains/System.keychain";

/// Where Linux keeps locally trusted certificates.
pub const LINUX_STORE: &'static str = "/usr/local/share/ca-certificates/";

/// The platforms whose trust store the library knows.
#[derive(Clone, Copy, Debug, PartialEq, Eq, Structural)]
pub enum Platform {
    Windows,
    MacOS,
    Linux,
}

/// How a query ended.
#[derive(Clone, Copy, Debug, PartialEq, Eq, Structural)]
pub enum Answer {
    /// The command exited with success, or the path exists.
    Yes,
    /// The command exited with a failure, or nothing was found at the path.
    No,
    /// The command could not be run at all. A look at a path has no such
    /// answer: given for one, it counts as `No`.
    Failed,
}

/// Why a trust store operation came to nothing.
#[derive(Clone, Copy, Debug, PartialEq, Eq, Structural)]
pub enum StoreError {
    /// The operating system is none of the known platforms.
    Unsupported,
    /// A command could not be run at all.
    Unavailable,
    /// The platform's tool refused to add the certificate.
    InstallFailed,
    /// The platform's tool refused to remove the certificate.
    DeleteFailed,
    /// The certificate could not be copied into the store.
    CopyFailed,
    /// The certificate file could not be removed from the store.
    RemoveFailed,
    /// The store could not be rebuilt after a change.
    RefreshFailed,
}

impl StoreError {
    /// What the error says. The caller adds what the failing command printed.
    pub open spec fn text(self) -> Seq<char> {
        match self {
            StoreError::Unsupported => "Unsupported operating system"@,
            StoreError::Unavailable => "Failed to run command"@,
            StoreError::InstallFailed => "Failed to install certificate"@,
            StoreError::DeleteFailed => "Failed to delete certificate"@,
            StoreError::CopyFailed => "Failed to copy certificate"@,
            StoreError::RemoveFailed => "Failed to remove certificate file"@,
            StoreError::RefreshFailed => "Failed to update CA certificates"@,
        }
    }

    /// What the error says.
    pub fn message(&self) -> (said: String)
        ensures
            said@ == self.text(),
    {
        match self {
            StoreError::Unsupported => "Unsupported operating system".to_owned(),
            StoreError::Unavailable => "Failed to run command".to_owned(),
            StoreError::InstallFailed => "Failed to install certificate".to_owned(),
            StoreError::DeleteFailed => "Failed to delete certificate".to_owned(),
            StoreError::CopyFailed => "Failed to copy certificate".to_owned(),
            StoreError::RemoveFailed => "Failed to remove certificate file".to_owned(),
            StoreError::RefreshFailed => "Failed to update CA certificates".to_owned(),
        }
    }
}

/// How an installation ended well.
#[derive(Clone, Copy, Debug, PartialEq, Eq, Structural)]
pub enum Installation {
    /// The certificate was in the store already; nothing was run.
    AlreadyInstalled,
    /// The certificate was added.
    Installed,
}

/// Something to ask of the operating system.
#[derive(Clone, Debug, PartialEq, Eq)]
pub enum Query {
    /// Run the program with the arguments and wait for it: `Yes` if it exits
    /// with success, `No` if it does not, `Failed` if it cannot be run.
    Run { program: String, arguments: Vec<String> },
    /// Look whether anything exists at the path: `Yes` or `No`.
    Exists { path: String },
}

/// A query by its text.
pub enum QueryView {
    Run { program: Seq<char>, arguments: Seq<Seq<char>> },
    Exists { path: Seq<char> },
}

/// The text of each of the strings.
pub open spec fn texts(strings: Seq<String>) -> Seq<Seq<char>> {
    Seq::new(strings.len(), |i: int| strings[i]@)
}

impl View for Query {
    type V = QueryView;

    open spec fn view(&self) -> QueryView {
        match *self {
            Query::Run { program, arguments } => QueryView::Run {
                program: program@,
                arguments: texts(arguments@),
            },
            Query::Exists { path } => QueryView::Exists { path: path@ },
        }
    }
}

/// One command of an operation, and the error that its failure is.
pub struct Stage {
    pub query: Query,
    pub failure: StoreError,
}

/// A stage by its text.
pub struct StageView {
    pub query: QueryView,
    pub failure: StoreError,
}

impl View for Stage {
    type V = StageView;

    open spec fn view(&self) -> StageView {
        StageView { query: self.query@, failure: self.failure }
    }
}

/// Each of the stages by its text.
pub open spec fn stage_views(stages: Seq<Stage>) -> Seq<StageView> {
    Seq::new(stages.len(), |i: int| stages[i]@)
}

/// What an operation comes to after the answers so far: the next thing to ask,
/// or its end.
#[derive(Debug, PartialEq, Eq)]
pub enum Next<T> {
    Ask(Query),
    Done(Result<T, StoreError>),
}

/// A next step by its text.
pub enum NextView<T> {
    Ask(QueryView),
    Done(Result<T, StoreError>),
}

impl<T> View for Next<T> {
    type V = NextView<T>;

    open spec fn view(&self) -> NextView<T> {
        match *self {
            Next::Ask(query) => NextView::Ask(query@),
            Next::Done(result) => NextView::Done(result),
        }
    }
}

/// The query by which a platform learns whether `cert` is in its store.
pub open spec fn probe_query(platform: Platform, cert: Seq<char>) -> QueryView {
    match platform {
        Platform::Windows => QueryView::Run {
            program: "certutil"@,
            arguments: seq!["-verifystore"@, "Root"@, cert],
        },
        Platform::MacOS => QueryView::Run {
            program: "security"@,
            arguments: seq!["find-certificate"@, "-a"@, "-c"@, cert, KEYCHAIN@],
        },
        Platform::Linux => QueryView::Exists { path: LINUX_STORE@ + cert },
    }
}

/// What the installer of a platform asks about before it installs `cert`: the
/// certificate itself, but on macOS the name that the keychain knows it by.
pub open spec fn install_subject(platform: Platform, cert: Seq<char>) -> Seq<char> {
    match platform {
        Platform::MacOS => CERTIFICATE_NAME@,
        _ => cert,
    }
}

/// `sudo update-ca-certificates`, which rebuilds the Linux store.
pub open spec fn refresh_stage() -> StageView {
    StageView {
        query: QueryView::Run { program: "sudo"@, arguments: seq!["update-ca-certificates"@] },
        failure: StoreError::RefreshFailed,
    }
}

/// The commands by which a platform adds `cert` to its store, in order.
pub open spec fn install_stages(platform: Platform, cert: Seq<char>) -> Seq<StageView> {
    match platform {
        Platform::Windows => seq![
            StageView {
                query: QueryView::Run {
                    program: "certutil"@,
                    arguments: seq!["-addstore"@, "Root"@, cert],
                },
                failure: StoreError::InstallFailed,
            },
        ],
        Platform::MacOS => seq![
            StageView {
                query: QueryView::Run {
                    program: "sudo"@,
                    arguments: seq![
                        "security"@,
                        "add-trusted-cert"@,
                        "-d"@,
                        "-r"@,
                        "trustRoot"@,
                        "-k"@,
                        KEYCHAIN@,
                        cert,
                    ],
                },
                failure: StoreError::InstallFailed,
            },
        ],
        Platform::Linux => seq![
            StageView {
                query: QueryView::Run {
                    program: "sudo"@,
                    arguments: seq!["cp"@, cert, LINUX_STORE@],
                },
                failure: StoreError::CopyFailed,
            },
            refresh_stage(),
        ],
    }
}

/// The commands by which a platform removes `cert` from its store, in order.
pub open spec fn delete_stages(platform: Platform, cert: Seq<char>) -> Seq<StageView> {
    match platform {
        Platform::Windows => seq![
            StageView {
                query: QueryView::Run {
                    program: "certutil"@,
                    arguments: seq!["-delstore"@, "Root"@, cert],
                },
                failure: StoreError::DeleteFailed,
            },
        ],
        Platform::MacOS => seq![
            StageView {
                query: QueryView::Run {
                    program: "sudo"@,
                    arguments: seq!["security"@, "delete-certificate"@, "-c"@, cert, KEYCHAIN@],
                },
                failure: StoreError::DeleteFailed,
            },
        ],
        Platform::Linux => seq![
            StageView {
                query: QueryView::Run {
                    program: "sudo"@,
                    arguments: seq!["rm"@, LINUX_STORE@ + cert],
                },
                failure: StoreError::RemoveFailed,
            },
            refresh_stage(),
        ],
    }
}

/// What an answer to a query counts as. A command has three answers. A look
/// at a path has two: a look that failed found nothing.
pub open spec fn counts_as(query: QueryView, answer: Answer) -> Answer {
    match query {
        QueryView::Run { .. } => answer,
        QueryView::Exists { .. } => match answer {
            Answer::Yes => Answer::Yes,
            _ => Answer::No,
        },
    }
}

/// Where a run of commands stands after the answers so far: the first command
/// not yet answered is next; a command that failed ends the run with its
/// error, one that could not be run with `Unavailable`; after the last, the
/// run ends well with `done`. Answers beyond the end are not looked at.
pub open spec fn after<T>(stages: Seq<StageView>, answers: Seq<Answer>, done: T) -> NextView<T>
    decreases stages.len(),
{
    if stages.len() == 0 {
        NextView::Done(Ok(done))
    } else if answers.len() == 0 {
        NextView::Ask(stages[0].query)
    } else {
        match counts_as(stages[0].query, answers[0]) {
            Answer::Yes => after(stages.skip(1), answers.skip(1), done),
            Answer::No => NextView::Done(Err(stages[0].failure)),
            Answer::Failed => NextView::Done(Err(StoreError::Unavailable)),
        }
    }
}

/// Where the question whether a certificate is installed stands: first the
/// probe is asked, and its answer is the verdict. A probe that looks at a path
/// never ends in an error.
pub open spec fn asked(probe: QueryView, answers: Seq<Answer>) -> NextView<bool> {
    if answers.len() == 0 {
        NextView::Ask(probe)
    } else {
        match counts_as(probe, answers[0]) {
            Answer::Yes => NextView::Done(Ok(true)),
            Answer::No => NextView::Done(Ok(false)),
            Answer::Failed => NextView::Done(Err(StoreError::Unavailable)),
        }
    }
}

/// Where an installation stands: first the probe is asked; a certificate that
/// is there already ends it at once; otherwise the commands are run.
pub open spec fn installing(probe: QueryView, stages: Seq<StageView>, answers: Seq<Answer>) -> NextView<
    Installation,
> {
    if answers.len() == 0 {
        NextView::Ask(probe)
    } else {
        match counts_as(probe, answers[0]) {
            Answer::Yes => NextView::Done(Ok(Installation::AlreadyInstalled)),
            Answer::No => after(stages, answers.skip(1), Installation::Installed),
            Answer::Failed => NextView::Done(Err(StoreError::Unavailable)),
        }
    }
}

/// Where the question whether `cert` is installed on `platform` stands.
pub open spec fn check_next(platform: Platform, cert: Seq<char>, answers: Seq<Answer>) -> NextView<
    bool,
> {
    asked(probe_query(platform, cert), answers)
}

/// Where the installation of `cert` on `platform` stands.
pub open spec fn install_next(platform: Platform, cert: Seq<char>, answers: Seq<Answer>) -> NextView<
    Installation,
> {
    installing(
        probe_query(platform, install_subject(platform, cert)),
        install_stages(platform, cert),
        answers,
    )
}

/// Where the removal of `cert` on `platform` stands.
pub open spec fn delete_next(platform: Platform, cert: Seq<char>, answers: Seq<Answer>) -> NextView<
    (),
> {
    after(delete_stages(platform, cert), answers, ())
}

/// A run of commands ends once each has an answer.
pub proof fn lemma_run_ends<T>(stages: Seq<StageView>, answers: Seq<Answer>, done: T)
    requires
        answers.len() >= stages.len(),
    ensures
        after(stages, answers, done) is Done,
    decreases stages.len(),
{
    if stages.len() > 0 && counts_as(stages[0].query, answers[0]) == Answer::Yes {
        lemma_run_ends(stages.skip(1), answers.skip(1), done);
    }
}

/// A run of commands that has ended stays as it ended, whatever further
/// answers are added.
pub proof fn lemma_run_stays_ended<T>(
    stages: Seq<StageView>,
    answers: Seq<Answer>,
    more: Seq<Answer>,
    done: T,
)
    requires
        after(stages, answers, done) is Done,
    ensures
        after(stages, answers + more, done) == after(stages, answers, done),
    decreases stages.len(),
{
    if stages.len() > 0 {
        assert(answers.len() > 0);
        assert((answers + more)[0] == answers[0]);
        if counts_as(stages[0].query, answers[0]) == Answer::Yes {
            assert((answers + more).skip(1) =~= answers.skip(1) + more);
            lemma_run_stays_ended(stages.skip(1), answers.skip(1), more, done);
        }
    }
}

/// Every operation ends: the question after one answer, a removal after two,
/// an installation after three. The caller's loop asks no more than that.
pub proof fn lemma_operations_end(platform: Platform, cert: Seq<char>, answers: Seq<Answer>)
    ensures
        answers.len() >= 1 ==> check_next(platform, cert, answers) is Done,
        answers.len() >= 2 ==> delete_next(platform, cert, answers) is Done,
        answers.len() >= 3 ==> install_next(platform, cert, answers) is Done,
{
    if answers.len() >= 2 {
        lemma_run_ends(delete_stages(platform, cert), answers, ());
    }
    if answers.len() >= 3 {
        lemma_run_ends(install_stages(platform, cert), answers.skip(1), Installation::Installed);
    }
}

/// What each platform calls the root certificate when it is asked about it or
/// told to remove it: macOS the keychain's name for it, the others its path.
pub open spec fn known_as(platform: Platform) -> Seq<char> {
    match platform {
        Platform::MacOS => CERTIFICATE_NAME@,
        _ => ROOT_CERTIFICATE_PATH@,
    }
}

/// A trust store: one per platform.
///
/// Each operation takes the answers to the queries it has asked so far, oldest
/// first, and says what comes next.
pub trait CertManager {
    /// The platform whose store this is.
    spec fn platform(&self) -> Platform;

    /// Whether the certificate is in the store.
    fn is_cert_installed(&self, cert_path: &str, answers: &[Answer]) -> (next: Next<bool>)
        ensures
            next@ == check_next(self.platform(), cert_path@, answers@),
    ;

    /// Adds the certificate to the store unless it is there already.
    fn install_cert(&self, cert_path: &str, answers: &[Answer]) -> (next: Next<Installation>)
        ensures
            next@ == install_next(self.platform(), cert_path@, answers@),
    ;

    /// Removes the certificate from the store.
    fn delete_cert(&self, cert_path: &str, answers: &[Answer]) -> (next: Next<()>)
        ensures
            next@ == delete_next(self.platform(), cert_path@, answers@),
    ;
}

/// The trust store of Windows, through `certutil`.
pub struct WindowsCertManager;

/// The system keychain of macOS, through `security`.
pub struct MacOSCertManager;

/// The trust store of Linux, a directory that `update-ca-certificates` reads.
pub struct LinuxCertManager;

/// A command of one argument.
fn run1(program: &str, a: &str) -> (q: Query)
    ensures
        q@ == (QueryView::Run { program: program@, arguments: seq![a@] }),
{
    let mut arguments: Vec<String> = Vec::new();
    arguments.push(a.to_owned());
    assert(texts(arguments@) =~= seq![a@]);
    Query::Run { program: program.to_owned(), arguments }
}

/// A command of two arguments.
fn run2(program: &str, a: &str, b: &str) -> (q: Query)
    ensures
        q@ == (QueryView::Run { program: program@, arguments: seq![a@, b@] }),
{
    let mut arguments: Vec<String> = Vec::new();
    arguments.push(a.to_owned());
    arguments.push(b.to_owned());
    assert(texts(arguments@) =~= seq![a@, b@]);
    Query::Run { program: program.to_owned(), arguments }
}

/// A command of three arguments.
fn run3(program: &str, a: &str, b: &str, c: &str) -> (q: Query)
    ensures
        q@ == (QueryView::Run { program: program@, arguments: seq![a@, b@, c@] }),
{
    let mut arguments: Vec<String> = Vec::new();
    arguments.push(a.to_owned());
    arguments.push(b.to_owned());
    arguments.push(c.to_owned());
    assert(texts(arguments@) =~= seq![a@, b@, c@]);
    Query::Run { program: program.to_owned(), arguments }
}

/// A path inside the Linux store.
fn in_linux_store(cert_path: &str) -> (path: String)
    ensures
        path@ == LINUX_STORE@ + cert_path@,
{
    LINUX_STORE.to_owned().concat(cert_path)
}

/// The stage that rebuilds the Linux store.
fn refresh() -> (stage: Stage)
    ensures
        stage@ == refresh_stage(),
{
    Stage { query: run1("sudo", "update-ca-certificates"), failure: StoreError::RefreshFailed }
}

/// What an answer to a query counts as.
pub fn heard(query: &Query, answer: Answer) -> (counted: Answer)
    ensures
        counted == counts_as(query@, answer),
{
    match query {
        Query::Run { .. } => answer,
        Query::Exists { .. } => match answer {
            Answer::Yes => Answer::Yes,
            _ => Answer::No,
        },
    }
}

/// Where the question that `probe` puts stands after the answers so far.
fn ask(probe: Query, answers: &[Answer]) -> (next: Next<bool>)
    ensures
        next@ == asked(probe@, answers@),
{
    if answers.len() == 0 {
        Next::Ask(probe)
    } else {
        match heard(&probe, answers[0]) {
            Answer::Yes => Next::Done(Ok(true)),
            Answer::No => Next::Done(Ok(false)),
            Answer::Failed => Next::Done(Err(StoreError::Unavailable)),
        }
    }
}

/// Where a run of `stages` stands after the answers from `from` on.
fn run<T>(stages: Vec<Stage>, answers: &[Answer], from: usize, done: T) -> (next: Next<T>)
    requires
        from <= answers@.len(),
    ensures
        next@ == after(stage_views(stages@), answers@.skip(from as int), done),
{
    let ghost all = stage_views(stages@);
    let mut left = stages;
    let mut i: usize = from;
    loop
        invariant
            from <= i <= answers@.len(),
            all == stage_views(stages@),
            after(all, answers@.skip(from as int), done) == after(
                stage_views(left@),
                answers@.skip(i as int),
                done,
            ),
        decreases answers@.len() - i,
    {
        if left.len() == 0 {
            return Next::Done(Ok(done));
        }
        let ghost before = stage_views(left@);
        let stage = left.remove(0);
        assert(before[0] == stage@);
        assert(stage_views(left@) =~= before.skip(1));
        if i == answers.len() {
            assert(answers@.skip(i as int).len() == 0);
            return Next::Ask(stage.query);
        }
        assert(answers@.skip(i as int)[0] == answers@[i as int]);
        assert(answers@.skip(i as int).skip(1) =~= answers@.skip(i as int + 1));
        match heard(&stage.query, answers[i]) {
            Answer::Yes => {
                i += 1;
            },
            Answer::No => {
                return Next::Done(Err(stage.failure));
            },
            Answer::Failed => {
                return Next::Done(Err(StoreError::Unavailable));
            },
        }
    }
}

/// Where an installation with this probe and these commands stands.
fn install(probe: Query, stages: Vec<Stage>, answers: &[Answer]) -> (next: Next<Installation>)
    ensures
        next@ == installing(probe@, stage_views(stages@), answers@),
{
    if answers.len() == 0 {
        Next::Ask(probe)
    } else {
        match heard(&probe, answers[0]) {
            Answer::Yes => Next::Done(Ok(Installation::AlreadyInstalled)),
            Answer::No => run(stages, answers, 1, Installation::Installed),
            Answer::Failed => Next::Done(Err(StoreError::Unavailable)),
        }
    }
}

impl WindowsCertManager {
    /// `certutil` with a verb, on the root store.
    fn certutil(verb: &str, cert_path: &str) -> (q: Query)
        ensures
            q@ == (QueryView::Run {
                program: "certutil"@,
                arguments: seq![verb@, "Root"@, cert_path@],
            }),
    {
        run3("certutil", verb, "Root", cert_path)
    }
}

impl CertManager for WindowsCertManager {
    open spec fn platform(&self) -> Platform {
        Platform::Windows
    }

    fn is_cert_installed(&self, cert_path: &str, answers: &[Answer]) -> (next: Next<bool>) {
        ask(Self::certutil("-verifystore", cert_path), answers)
    }

    fn install_cert(&self, cert_path: &str, answers: &[Answer]) -> (next: Next<Installation>) {
        let mut stages: Vec<Stage> = Vec::new();
        stages.push(
            Stage {
                query: Self::certutil("-addstore", cert_path),
                failure: StoreError::InstallFailed,
            },
        );
        assert(stage_views(stages@) =~= install_stages(Platform::Windows, cert_path@));
        install(Self::certutil("-verifystore", cert_path), stages, answers)
    }

    fn delete_cert(&self, cert_path: &str, answers: &[Answer]) -> (next: Next<()>) {
        let mut stages: Vec<Stage> = Vec::new();
        stages.push(
            Stage {
                query: Self::certutil("-delstore", cert_path),
                failure: StoreError::DeleteFailed,
            },
        );
        assert(stage_views(stages@) =~= delete_stages(Platform::Windows, cert_path@));
        assert(answers@.skip(0) =~= answers@);
        run(stages, answers, 0, ())
    }
}

impl MacOSCertManager {
    /// `security find-certificate` for a name, in the system keychain.
    fn find(cert_name: &str) -> (q: Query)
        ensures
            q@ == probe_query(Platform::MacOS, cert_name@),
    {
        let mut arguments: Vec<String> = Vec::new();
        arguments.push("find-certificate".to_owned());
        arguments.push("-a".to_owned());
        arguments.push("-c".to_owned());
        arguments.push(cert_name.to_owned());
        arguments.push(KEYCHAIN.to_owned());
        assert(texts(arguments@) =~= seq![
            "find-certificate"@,
            "-a"@,
            "-c"@,
            cert_name@,
            KEYCHAIN@,
        ]);
        Query::Run { program: "security".to_owned(), arguments }
    }
}

impl CertManager for MacOSCertManager {
    open spec fn platform(&self) -> Platform {
        Platform::MacOS
    }

    fn is_cert_installed(&self, cert_path: &str, answers: &[Answer]) -> (next: Next<bool>) {
        ask(Self::find(cert_path), answers)
    }

    fn install_cert(&self, cert_path: &str, answers: &[Answer]) -> (next: Next<Installation>) {
        let mut arguments: Vec<String> = Vec::new();
        arguments.push("security".to_owned());
        arguments.push("add-trusted-cert".to_owned());
        arguments.push("-d".to_owned());
        arguments.push("-r".to_owned());
        arguments.push("trustRoot".to_owned());
        arguments.push("-k".to_owned());
        arguments.push(KEYCHAIN.to_owned());
        arguments.push(cert_path.to_owned());
        assert(texts(arguments@) =~= seq![
            "security"@,
            "add-trusted-cert"@,
            "-d"@,
            "-r"@,
            "trustRoot"@,
            "-k"@,
            KEYCHAIN@,
            cert_path@,
        ]);
        let mut stages: Vec<Stage> = Vec::new();
        stages.push(
            Stage {
                query: Query::Run { program: "sudo".to_owned(), arguments },
                failure: StoreError::InstallFailed,
            },
        );
        assert(stage_views(stages@) =~= install_stages(Platform::MacOS, cert_path@));
        install(Self::find(CERTIFICATE_NAME), stages, answers)
    }

    fn delete_cert(&self, cert_path: &str, answers: &[Answer]) -> (next: Next<()>) {
        let mut arguments: Vec<String> = Vec::new();
        arguments.push("security".to_owned());
        arguments.push("delete-certificate".to_owned());
        arguments.push("-c".to_owned());
        arguments.push(cert_path.to_owned());
        arguments.push(KEYCHAIN.to_owned());
        assert(texts(arguments@) =~= seq![
            "security"@,
            "delete-certificate"@,
            "-c"@,
            cert_path@,
            KEYCHAIN@,
        ]);
        let mut stages: Vec<Stage> = Vec::new();
        stages.push(
            Stage {
                query: Query::Run { program: "sudo".to_owned(), arguments },
                failure: StoreError::DeleteFailed,
            },
        );
        assert(stage_views(stages@) =~= delete_stages(Platform::MacOS, cert_path@));
        assert(answers@.skip(0) =~= answers@);
        run(stages, answers, 0, ())
    }
}

impl CertManager for LinuxCertManager {
    open spec fn platform(&self) -> Platform {
        Platform::Linux
    }

    fn is_cert_installed(&self, cert_path: &str, answers: &[Answer]) -> (next: Next<bool>) {
        ask(Query::Exists { path: in_linux_store(cert_path) }, answers)
    }

    fn install_cert(&self, cert_path: &str, answers: &[Answer]) -> (next: Next<Installation>) {
        let mut stages: Vec<Stage> = Vec::new();
        stages.push(
            Stage {
                query: run3("sudo", "cp", cert_path, LINUX_STORE),
                failure: StoreError::CopyFailed,
            },
        );
        stages.push(refresh());
        assert(stage_views(stages@) =~= install_stages(Platform::Linux, cert_path@));
        install(Query::Exists { path: in_linux_store(cert_path) }, stages, answers)
    }

    fn delete_cert(&self, cert_path: &str, answers: &[Answer]) -> (next: Next<()>) {
        let stored = in_linux_store(cert_path);
        let mut stages: Vec<Stage> = Vec::new();
        stages.push(
            Stage {
                query: run2("sudo", "rm", stored.as_str()),
                failure: StoreError::RemoveFailed,
            },
        );
        stages.push(refresh());
        assert(stage_views(stages@) =~= delete_stages(Platform::Linux, cert_path@));
        assert(answers@.skip(0) =~= answers@);
        run(stages, answers, 0, ())
    }
}

/// Where the installation of the root certificate stands on this system.
/// `None` is a system that is none of the known platforms: nothing is asked of
/// it.
pub fn install_cert(platform: Option<Platform>, answers: &[Answer]) -> (next: Next<Installation>)
    ensures
        next@ == match platform {
            Some(known) => install_next(known, ROOT_CERTIFICATE_PATH@, answers@),
            None => NextView::Done(Err(StoreError::Unsupported)),
        },
{
    match platform {
        Some(Platform::Windows) => WindowsCertManager.install_cert(ROOT_CERTIFICATE_PATH, answers),
        Some(Platform::MacOS) => MacOSCertManager.install_cert(ROOT_CERTIFICATE_PATH, answers),
        Some(Platform::Linux) => LinuxCertManager.install_cert(ROOT_CERTIFICATE_PATH, answers),
        None => Next::Done(Err(StoreError::Unsupported)),
    }
}

/// Where the removal of the root certificate stands on this system.
pub fn delete_cert(platform: Option<Platform>, answers: &[Answer]) -> (next: Next<()>)
    ensures
        next@ == match platform {
            Some(known) => delete_next(known, known_as(known), answers@),
            None => NextView::Done(Err(StoreError::Unsupported)),
        },
{
    match platform {
        Some(Platform::Windows) => WindowsCertManager.delete_cert(ROOT_CERTIFICATE_PATH, answers),
        Some(Platform::MacOS) => MacOSCertManager.delete_cert(CERTIFICATE_NAME, answers),
        Some(Platform::Linux) => LinuxCertManager.delete_cert(ROOT_CERTIFICATE_PATH, answers),
        None => Next::Done(Err(StoreError::Unsupported)),
    }
}

/// Where the question whether the root certificate is installed stands on this
/// system.
pub fn check_cert(platform: Option<Platform>, answers: &[Answer]) -> (next: Next<bool>)
    ensures
        next@ == match platform {
            Some(known) => check_next(known, known_as(known), answers@),
            None => NextView::Done(Err(StoreError::Unsupported)),
        },
{
    match platform {
        Some(Platform::Windows) => WindowsCertManager.is_cert_installed(
            ROOT_CERTIFICATE_PATH,
            answers,
        ),
        Some(Platform::MacOS) => MacOSCertManager.is_cert_installed(CERTIFICATE_NAME, answers),
        Some(Platform::Linux) => LinuxCertManager.is_cert_installed(ROOT_CERTIFICATE_PATH, answers),
        None => Next::Done(Err(StoreError::Unsupported)),
    }
}

} // verus!
