use vstd::prelude::*;

use crate::errors::CommandError;
use crate::text::join;

verus! {

/// A resource's YAML as fetched from the cluster before a risky upgrade.
#[derive(Clone, Debug)]
pub struct Backup {
    pub name: String,
    pub content: String,
}

/// A backup written to disk.
#[derive(Clone, Debug)]
pub struct BackupInfos {
    pub name: String,
    pub path: String,
}

/// A resource of a chart and its YAML, `None` when the cluster could not
/// be asked.
pub struct FetchedResource {
    pub name: String,
    pub content: Option<String>,
}

#[derive(Clone, Copy, Debug, PartialEq, Eq, Structural)]
pub enum HelmCommand {
    Upgrade,
}

#[derive(Debug)]
pub enum HelmError {
    /// The chart, the command under way, and what failed.
    CmdError(String, HelmCommand, CommandError),
}

/// The text with each character lower-cased as Unicode defines it.
pub uninterp spec fn lower_of(s: Seq<char>) -> Seq<char>;

/// Relies on `str::to_lowercase`: the result depends on the characters
/// alone, and the empty text stays empty.
#[verifier::external_body]
fn lowercase(s: &str) -> (r: String)
    ensures
        r@ == lower_of(s@),
        s@.len() == 0 ==> r@.len() == 0,
{
    s.to_lowercase()
}

/// `needle` occurs in `hay` at `i`.
pub open spec fn occurs_at(hay: Seq<char>, needle: Seq<char>, i: int) -> bool {
    0 <= i && i + needle.len() <= hay.len() && hay.subrange(i, i + needle.len()) == needle
}

pub open spec fn contains(hay: Seq<char>, needle: Seq<char>) -> bool {
    exists|i: int| occurs_at(hay, needle, i)
}

/// Whether `needle` occurs in `hay`.
pub fn text_contains(hay: &str, needle: &str) -> (r: bool)
    ensures
        r == contains(hay@, needle@),
{
    let n = hay.unicode_len();
    let m = needle.unicode_len();
    if m > n {
        assert forall|i: int| !occurs_at(hay@, needle@, i) by {}
        return false;
    }
    let mut i: usize = 0;
    while i <= n - m
        invariant
            n == hay@.len(),
            m == needle@.len(),
            m <= n,
            i <= n - m + 1,
            forall|k: int| 0 <= k < i ==> !occurs_at(hay@, needle@, k),
        decreases n - m + 1 - i,
    {
        let mut j: usize = 0;
        let mut same = true;
        while j < m
            invariant
                n == hay@.len(),
                m == needle@.len(),
                i + m <= n,
                j <= m,
                same ==> forall|k: int| 0 <= k < j ==> hay@[i + k] == needle@[k],
                !same ==> exists|k: int| 0 <= k < m && hay@[i + k] != needle@[k],
            decreases m - j,
        {
            if hay.get_char(i + j) != needle.get_char(j) {
                same = false;
            }
            j = j + 1;
        }
        if same {
            assert(hay@.subrange(i as int, i + m) =~= needle@);
            assert(occurs_at(hay@, needle@, i as int));
            return true;
        }
        proof {
            let k = choose|k: int| 0 <= k < m && hay@[i + k] != needle@[k];
            assert(hay@.subrange(i as int, i + m)[k] != needle@[k]);
        }
        i = i + 1;
    }
    assert forall|k: int| !occurs_at(hay@, needle@, k) by {
        if 0 <= k && k + m <= n {
            assert(k < i);
        }
    }
    false
}

/// Whether a fetched resource holds something to back up: the cluster
/// found resources of that kind, and the list is not empty.
pub open spec fn worth_backup(content: Seq<char>) -> bool {
    &&& !contains(lower_of(content), "no resources found"@)
    &&& content.len() > 0
    &&& !contains(content, "items: []"@)
}

pub fn is_worth_backup(content: &str) -> (r: bool)
    ensures
        r == worth_backup(content@),
{
    let lower = lowercase(content);
    if text_contains(lower.as_str(), "no resources found") {
        return false;
    }
    if content.unicode_len() == 0 {
        return false;
    }
    !text_contains(content, "items: []")
}

/// The backups to write, in the order of the fetched resources.
pub open spec fn selected_backups(fetched: Seq<FetchedResource>) -> Seq<(Seq<char>, Seq<char>)>
    decreases fetched.len(),
{
    if fetched.len() == 0 {
        Seq::empty()
    } else {
        let prev = selected_backups(fetched.drop_last());
        match fetched.last().content {
            Some(c) => if worth_backup(c@) {
                prev.push((fetched.last().name@, c@))
            } else {
                prev
            },
            None => prev,
        }
    }
}

pub open spec fn backup_view(b: Backup) -> (Seq<char>, Seq<char>) {
    (b.name@, b.content@)
}

/// Chooses, among the resources fetched before an upgrade, those whose
/// YAML is to be backed up: each resource that could be fetched and holds
/// something, in order, with its content.
pub fn prepare_chart_backup(fetched: &Vec<FetchedResource>) -> (r: Vec<Backup>)
    ensures
        r@.map_values(|b: Backup| backup_view(b)) == selected_backups(fetched@),
{
    let mut out: Vec<Backup> = Vec::new();
    let n = fetched.len();
    let mut i: usize = 0;
    while i < n
        invariant
            n == fetched@.len(),
            i <= n,
            out@.map_values(|b: Backup| backup_view(b)) == selected_backups(
                fetched@.subrange(0, i as int),
            ),
        decreases n - i,
    {
        let ghost before = fetched@.subrange(0, i as int);
        let ghost after = fetched@.subrange(0, i + 1);
        assert(after.drop_last() =~= before);
        let resource = &fetched[i];
        match &resource.content {
            Some(c) => {
                if is_worth_backup(c.as_str()) {
                    let ghost old_out = out@;
                    out.push(Backup { name: resource.name.clone(), content: c.clone() });
                    assert(out@.map_values(|b: Backup| backup_view(b)) =~= old_out.map_values(
                        |b: Backup| backup_view(b),
                    ).push((resource.name@, c@)));
                }
            },
            None => {},
        }
        i = i + 1;
    }
    assert(fetched@.subrange(0, n as int) =~= fetched@);
    out
}

pub open spec fn backup_secret_name_spec(chart: Seq<char>, resource: Seq<char>) -> Seq<char> {
    chart + "-"@ + resource + "-q-backup"@
}

/// The name of the cluster secret that keeps a resource's backup.
pub fn backup_secret_name(chart: &str, resource: &str) -> (r: String)
    ensures
        r@ == backup_secret_name_spec(chart@, resource@),
{
    let mut s = join(chart, "-");
    s.append(resource);
    s.append("-q-backup");
    s
}

/// Whether a cluster secret holds a backup.
pub open spec fn is_backup_secret(name: Seq<char>) -> bool {
    contains(name, "-q-backup"@)
}

pub open spec fn backup_secret_indices(names: Seq<String>) -> Seq<usize>
    decreases names.len(),
{
    if names.len() == 0 {
        Seq::empty()
    } else {
        let prev = backup_secret_indices(names.drop_last());
        if is_backup_secret(names.last()@) {
            prev.push((names.len() - 1) as usize)
        } else {
            prev
        }
    }
}

/// Chooses, among the secrets of a chart's namespace, those that hold
/// backups to restore, in order.
pub fn apply_chart_backup(secret_names: &Vec<String>) -> (r: Vec<usize>)
    ensures
        r@ == backup_secret_indices(secret_names@),
{
    let mut out: Vec<usize> = Vec::new();
    let n = secret_names.len();
    let mut i: usize = 0;
    while i < n
        invariant
            n == secret_names@.len(),
            i <= n,
            out@ == backup_secret_indices(secret_names@.subrange(0, i as int)),
        decreases n - i,
    {
        let ghost after = secret_names@.subrange(0, i + 1);
        assert(after.drop_last() =~= secret_names@.subrange(0, i as int));
        if text_contains(secret_names[i].as_str(), "-q-backup") {
            out.push(i);
        }
        i = i + 1;
    }
    assert(secret_names@.subrange(0, n as int) =~= secret_names@);
    out
}

/// What to do when a backup secret could not be turned into a file.
#[derive(Debug)]
pub enum RestoreDecision {
    /// The secret is empty: delete it and go on with the next one.
    DeleteAndSkip,
    Fail(HelmError),
}

/// An empty backup secret is dropped; any other failure to read a backup
/// stops the restore with the chart's name and the failure's messages.
pub fn on_backup_file_failure(chart_name: &str, failure: CommandError) -> (r: RestoreDecision)
    ensures
        contains(lower_of(failure.message_safe@), "no content"@) ==> r is DeleteAndSkip,
        !contains(lower_of(failure.message_safe@), "no content"@) ==> (r matches RestoreDecision::Fail(
            HelmError::CmdError(c, cmd, e),
        ) && c@ == chart_name@ && cmd == HelmCommand::Upgrade && e.message_safe@
            == failure.message_safe@ && e.message_raw == failure.message_raw),
{
    let lower = lowercase(failure.message_safe.as_str());
    if text_contains(lower.as_str(), "no content") {
        RestoreDecision::DeleteAndSkip
    } else {
        RestoreDecision::Fail(
            HelmError::CmdError(String::from_str(chart_name), HelmCommand::Upgrade, failure),
        )
    }
}

/// The error that stops a backup when its file could not be written.
pub fn backup_file_error(chart_name: &str, resource: &str, detail: String) -> (r: HelmError)
    ensures
        r matches HelmError::CmdError(c, cmd, e) && c@ == chart_name@ && cmd
            == HelmCommand::Upgrade && e.message_safe@ == "Error while creating YAML backup file for "@
            + resource@ + "."@ && e.message_raw == Some(detail),
{
    let mut msg = join("Error while creating YAML backup file for ", resource);
    msg.append(".");
    HelmError::CmdError(
        String::from_str(chart_name),
        HelmCommand::Upgrade,
        CommandError::new(msg, Some(detail)),
    )
}

/// The error that stops a backup when its file could not be edited.
pub fn backup_edit_error(chart_name: &str, resource: &str, detail: String) -> (r: HelmError)
    ensures
        r matches HelmError::CmdError(c, cmd, e) && c@ == chart_name@ && cmd
            == HelmCommand::Upgrade && e.message_safe@ == "Error while editing YAML backup file "@
            + resource@ + "."@ && e.message_raw == Some(detail),
{
    let mut msg = join("Error while editing YAML backup file ", resource);
    msg.append(".");
    HelmError::CmdError(
        String::from_str(chart_name),
        HelmCommand::Upgrade,
        CommandError::new(msg, Some(detail)),
    )
}

/// A failed cluster command during a backup or a restore, under the chart's
/// name.
pub fn backup_command_error(chart_name: &str, failure: CommandError) -> (r: HelmError)
    ensures
        r matches HelmError::CmdError(c, cmd, e) && c@ == chart_name@ && cmd
            == HelmCommand::Upgrade && e.message_safe@ == failure.message_safe@ && e.message_raw
            == failure.message_raw,
{
    HelmError::CmdError(String::from_str(chart_name), HelmCommand::Upgrade, failure)
}

#[derive(Clone, Copy, Debug, PartialEq, Eq, Structural)]
pub enum BackupStage {
    Fetching,
    Writing,
    Editing,
    Securing,
    Finished,
}

/// What the caller does next to back up a chart before an upgrade.
#[derive(Debug)]
pub enum BackupStep {
    /// Fetch the YAML of `resources[i]` in the chart's namespace.
    Fetch(usize),
    /// Write `backups[i]` to a backup file.
    WriteFile(usize),
    /// Strip the cluster-specific lines of the file of `infos[i]` and
    /// re-indent it.
    EditFile(usize),
    /// Store the file of `infos[i]` in the chart's namespace as a secret of
    /// this name, under the key `infos[i].name`.
    CreateSecret(usize, String),
    Finished,
}

pub open spec fn secret_names(chart: Seq<char>, infos: Seq<BackupInfos>) -> Seq<Seq<char>> {
    infos.map_values(|i: BackupInfos| backup_secret_name_spec(chart, i.name@))
}

pub open spec fn names_match(infos: Seq<BackupInfos>, backups: Seq<Backup>, n: int) -> bool {
    forall|k: int| 0 <= k < n ==> (#[trigger] infos[k]).name@ == backups[k].name@
}

/// The backup of a chart as a sequence of steps: fetch each resource, keep
/// those worth backing up, write each to a file, then edit each file and
/// store it in a secret. The first failed write, edit or secret stops the
/// run with its error; the cluster is asked for nothing more.
pub struct ChartBackup {
    pub chart_name: String,
    pub resources: Vec<String>,
    pub fetched: Vec<FetchedResource>,
    pub backups: Vec<Backup>,
    pub infos: Vec<BackupInfos>,
    pub stage: BackupStage,
    pub index: usize,
    pub error: Option<HelmError>,
    /// The secrets created so far.
    pub secrets: Ghost<Seq<Seq<char>>>,
}

impl ChartBackup {
    pub open spec fn selected(self) -> bool {
        self.backups@.map_values(|b: Backup| backup_view(b)) == selected_backups(self.fetched@)
    }

    pub open spec fn wf(self) -> bool {
        let chart = self.chart_name@;
        &&& self.fetched@.len() <= self.resources@.len()
        &&& forall|k: int|
            0 <= k < self.fetched@.len() ==> (#[trigger] self.fetched@[k]).name@
                == self.resources@[k]@
        &&& match self.stage {
            BackupStage::Fetching => {
                &&& self.index == self.fetched@.len() < self.resources@.len()
                &&& self.backups@.len() == 0 && self.infos@.len() == 0 && self.secrets@.len() == 0
                &&& self.error is None
            },
            BackupStage::Writing => {
                &&& self.fetched@.len() == self.resources@.len()
                &&& self.selected()
                &&& self.index == self.infos@.len() < self.backups@.len()
                &&& names_match(self.infos@, self.backups@, self.infos@.len() as int)
                &&& self.secrets@.len() == 0
                &&& self.error is None
            },
            BackupStage::Editing | BackupStage::Securing => {
                &&& self.fetched@.len() == self.resources@.len()
                &&& self.selected()
                &&& self.infos@.len() == self.backups@.len()
                &&& names_match(self.infos@, self.backups@, self.infos@.len() as int)
                &&& self.index < self.infos@.len()
                &&& self.secrets@ == secret_names(chart, self.infos@.take(self.index as int))
                &&& self.error is None
            },
            BackupStage::Finished => self.error is None ==> {
                &&& self.fetched@.len() == self.resources@.len()
                &&& self.selected()
                &&& self.infos@.len() == self.backups@.len()
                &&& names_match(self.infos@, self.backups@, self.infos@.len() as int)
                &&& self.secrets@ == secret_names(chart, self.infos@)
            },
        }
    }

    /// Starts the backup of `resources` of the chart named `chart_name`.
    pub fn new(chart_name: String, resources: Vec<String>) -> (r: ChartBackup)
        ensures
            r.wf(),
            r.chart_name == chart_name,
            r.resources == resources,
            r.fetched@.len() == 0,
            r.error is None,
            r.stage == if resources@.len() == 0 {
                BackupStage::Finished
            } else {
                BackupStage::Fetching
            },
    {
        let n = resources.len();
        let mut b = ChartBackup {
            chart_name,
            resources,
            fetched: Vec::new(),
            backups: Vec::new(),
            infos: Vec::new(),
            stage: BackupStage::Fetching,
            index: 0,
            error: None,
            secrets: Ghost(Seq::empty()),
        };
        if n == 0 {
            b.stage = BackupStage::Finished;
            assert(selected_backups(b.fetched@) =~= Seq::<(Seq<char>, Seq<char>)>::empty());
            assert(b.backups@.map_values(|x: Backup| backup_view(x)) =~= Seq::<
                (Seq<char>, Seq<char>),
            >::empty());
            assert(b.secrets@ =~= secret_names(b.chart_name@, b.infos@));
        }
        b
    }

    /// The step the caller performs next.
    pub fn next_step(&self) -> (r: BackupStep)
        requires
            self.wf(),
        ensures
            self.stage is Fetching ==> r == BackupStep::Fetch(self.index),
            self.stage is Writing ==> r == BackupStep::WriteFile(self.index),
            self.stage is Editing ==> r == BackupStep::EditFile(self.index),
            self.stage is Securing ==> (r matches BackupStep::CreateSecret(i, name) && i
                == self.index && name@ == backup_secret_name_spec(
                self.chart_name@,
                self.infos@[self.index as int].name@,
            )),
            self.stage is Finished ==> r == BackupStep::Finished,
    {
        match self.stage {
            BackupStage::Fetching => BackupStep::Fetch(self.index),
            BackupStage::Writing => BackupStep::WriteFile(self.index),
            BackupStage::Editing => BackupStep::EditFile(self.index),
            BackupStage::Securing => BackupStep::CreateSecret(
                self.index,
                backup_secret_name(self.chart_name.as_str(), self.infos[self.index].name.as_str()),
            ),
            BackupStage::Finished => BackupStep::Finished,
        }
    }

    /// Reports the YAML fetched for the current resource, `None` when the
    /// cluster could not be asked. Once every resource is fetched, those
    /// worth backing up are kept; with none, the backup is done.
    pub fn on_fetched(&mut self, content: Option<String>)
        requires
            old(self).wf(),
            old(self).stage is Fetching,
        ensures
            final(self).wf(),
            final(self).chart_name == old(self).chart_name,
            final(self).resources == old(self).resources,
            final(self).fetched@.len() == old(self).fetched@.len() + 1,
            final(self).fetched@.last().content == content,
            final(self).error is None,
            final(self).fetched@.len() < final(self).resources@.len() ==> final(self).stage
                is Fetching,
            final(self).fetched@.len() == final(self).resources@.len() ==> {
                &&& final(self).selected()
                &&& final(self).stage == if final(self).backups@.len() == 0 {
                    BackupStage::Finished
                } else {
                    BackupStage::Writing
                }
                &&& final(self).index == 0
            },
    {
        let n = self.resources.len();
        let name = self.resources[self.index].clone();
        self.fetched.push(FetchedResource { name, content });
        self.index = self.index + 1;
        if self.index == self.resources.len() {
            self.backups = prepare_chart_backup(&self.fetched);
            self.index = 0;
            if self.backups.len() == 0 {
                self.stage = BackupStage::Finished;
                assert(self.secrets@ =~= secret_names(self.chart_name@, self.infos@));
            } else {
                self.stage = BackupStage::Writing;
            }
        }
    }

    /// Reports the writing of the current backup's file: its path, or the
    /// failure, which stops the backup.
    pub fn on_written(&mut self, written: Result<String, String>)
        requires
            old(self).wf(),
            old(self).stage is Writing,
        ensures
            final(self).wf(),
            final(self).chart_name == old(self).chart_name,
            final(self).backups == old(self).backups,
            written matches Ok(path) ==> {
                &&& final(self).infos@.len() == old(self).infos@.len() + 1
                &&& final(self).infos@.last().path == path
                &&& final(self).infos@.last().name@ == old(self).backups@[old(self).index as int].name@
                &&& final(self).stage == if final(self).infos@.len() < final(self).backups@.len() {
                    BackupStage::Writing
                } else {
                    BackupStage::Editing
                }
            },
            written matches Err(d) ==> final(self).stage is Finished && (final(self).error matches Some(HelmError::CmdError(c, cmd, e)) && c@ == old(self).chart_name@
                && cmd == HelmCommand::Upgrade && e.message_safe@
                == "Error while creating YAML backup file for "@ + old(self).backups@[old(self).index as int].name@ + "."@ && e.message_raw == Some(d)),
    {
        match written {
            Ok(path) => {
                let n = self.backups.len();
                let name = self.backups[self.index].name.clone();
                let ghost before = self.infos@;
                self.infos.push(BackupInfos { name, path });
                assert(names_match(self.infos@, self.backups@, self.infos@.len() as int)) by {
                    assert forall|k: int| 0 <= k < self.infos@.len() implies (
                    #[trigger] self.infos@[k]).name@ == self.backups@[k].name@ by {
                        if k < before.len() {
                            assert(self.infos@[k] == before[k]);
                        }
                    }
                }
                self.index = self.index + 1;
                if self.index == self.backups.len() {
                    self.stage = BackupStage::Editing;
                    self.index = 0;
                    assert(self.secrets@ =~= secret_names(
                        self.chart_name@,
                        self.infos@.take(0),
                    ));
                }
            },
            Err(d) => {
                let e = backup_file_error(
                    self.chart_name.as_str(),
                    self.backups[self.index].name.as_str(),
                    d,
                );
                self.error = Some(e);
                self.stage = BackupStage::Finished;
            },
        }
    }

    /// Reports the editing of the current backup's file; a failure stops
    /// the backup.
    pub fn on_edited(&mut self, edited: Result<(), String>)
        requires
            old(self).wf(),
            old(self).stage is Editing,
        ensures
            final(self).wf(),
            final(self).chart_name == old(self).chart_name,
            final(self).infos == old(self).infos,
            final(self).index == old(self).index,
            edited is Ok ==> final(self).stage is Securing,
            edited matches Err(d) ==> final(self).stage is Finished && (final(self).error matches Some(HelmError::CmdError(c, cmd, e)) && c@ == old(self).chart_name@
                && cmd == HelmCommand::Upgrade && e.message_safe@
                == "Error while editing YAML backup file "@ + old(self).infos@[old(self).index as int].name@ + "."@ && e.message_raw == Some(d)),
    {
        match edited {
            Ok(()) => {
                self.stage = BackupStage::Securing;
            },
            Err(d) => {
                let e = backup_edit_error(
                    self.chart_name.as_str(),
                    self.infos[self.index].name.as_str(),
                    d,
                );
                self.error = Some(e);
                self.stage = BackupStage::Finished;
            },
        }
    }

    /// Reports the creation of the current backup's secret; a failure stops
    /// the backup with the cluster's messages.
    pub fn on_secret(&mut self, created: Result<(), CommandError>)
        requires
            old(self).wf(),
            old(self).stage is Securing,
        ensures
            final(self).wf(),
            final(self).chart_name == old(self).chart_name,
            final(self).infos == old(self).infos,
            created is Ok ==> final(self).secrets@ == old(self).secrets@.push(
                backup_secret_name_spec(
                    old(self).chart_name@,
                    old(self).infos@[old(self).index as int].name@,
                ),
            ) && if old(self).index + 1 < old(self).infos@.len() {
                final(self).stage is Editing && final(self).index == old(self).index + 1
            } else {
                final(self).stage is Finished && final(self).error is None
            },
            created matches Err(f) ==> final(self).stage is Finished && final(self).secrets
                == old(self).secrets && (final(self).error matches Some(
                HelmError::CmdError(c, cmd, e),
            ) && c@ == old(self).chart_name@ && cmd == HelmCommand::Upgrade && e.message_safe@
                == f.message_safe@ && e.message_raw == f.message_raw),
    {
        match created {
            Ok(()) => {
                let n = self.infos.len();
                let ghost name = backup_secret_name_spec(
                    self.chart_name@,
                    self.infos@[self.index as int].name@,
                );
                self.secrets = Ghost(self.secrets@.push(name));
                assert(self.infos@.take(self.index + 1) =~= self.infos@.take(
                    self.index as int,
                ).push(self.infos@[self.index as int]));
                assert(self.secrets@ =~= secret_names(
                    self.chart_name@,
                    self.infos@.take(self.index + 1),
                ));
                if self.index + 1 < self.infos.len() {
                    self.index = self.index + 1;
                    self.stage = BackupStage::Editing;
                } else {
                    assert(self.infos@.take(self.index + 1) =~= self.infos@);
                    self.stage = BackupStage::Finished;
                }
            },
            Err(f) => {
                let e = backup_command_error(self.chart_name.as_str(), f);
                self.error = Some(e);
                self.stage = BackupStage::Finished;
            },
        }
    }
}

/// A backup that finished without error created one secret per resource
/// worth backing up, in order, each named after the chart and the resource.
pub proof fn lemma_backup_secrets(b: ChartBackup)
    requires
        b.wf(),
        b.stage is Finished,
        b.error is None,
    ensures
        b.secrets@ == selected_backups(b.fetched@).map_values(
            |x: (Seq<char>, Seq<char>)| backup_secret_name_spec(b.chart_name@, x.0),
        ),
{
    let sel = selected_backups(b.fetched@);
    let views = b.backups@.map_values(|x: Backup| backup_view(x));
    assert(views == sel);
    assert(b.secrets@ =~= sel.map_values(
        |x: (Seq<char>, Seq<char>)| backup_secret_name_spec(b.chart_name@, x.0),
    )) by {
        assert forall|k: int| 0 <= k < sel.len() implies b.secrets@[k] == backup_secret_name_spec(
            b.chart_name@,
            sel[k].0,
        ) by {
            assert(views[k] == backup_view(b.backups@[k]));
            assert(b.infos@[k].name@ == b.backups@[k].name@);
        }
    }
}

pub open spec fn fetched_view(f: Seq<FetchedResource>) -> Seq<(Seq<char>, Option<Seq<char>>)> {
    f.map_values(
        |r: FetchedResource|
            (
                r.name@,
                match r.content {
                    Some(c) => Some(c@),
                    None => None,
                },
            ),
    )
}

proof fn lemma_selected_by_view(a: Seq<FetchedResource>, b: Seq<FetchedResource>)
    requires
        fetched_view(a) == fetched_view(b),
    ensures
        selected_backups(a) == selected_backups(b),
    decreases a.len(),
{
    assert(a.len() == fetched_view(a).len());
    if a.len() > 0 {
        assert(fetched_view(a.drop_last()) =~= fetched_view(a).drop_last());
        assert(fetched_view(b.drop_last()) =~= fetched_view(b).drop_last());
        lemma_selected_by_view(a.drop_last(), b.drop_last());
        assert(fetched_view(a)[a.len() - 1] == fetched_view(b)[a.len() - 1]);
    }
}

/// Idempotence: backing up an unchanged chart again, with the cluster
/// answering as before, creates the same secrets, so the set of backup
/// artifacts stays as the first run left it.
pub proof fn lemma_backup_rerun_idempotent(
    existing: Set<Seq<char>>,
    first: ChartBackup,
    again: ChartBackup,
)
    requires
        first.wf(),
        again.wf(),
        first.stage is Finished && first.error is None,
        again.stage is Finished && again.error is None,
        first.chart_name@ == again.chart_name@,
        fetched_view(first.fetched@) == fetched_view(again.fetched@),
    ensures
        existing + first.secrets@.to_set() + again.secrets@.to_set() == existing
            + first.secrets@.to_set(),
{
    lemma_backup_secrets(first);
    lemma_backup_secrets(again);
    lemma_selected_by_view(first.fetched@, again.fetched@);
    assert(first.secrets@ =~= again.secrets@);
    assert(existing + first.secrets@.to_set() + again.secrets@.to_set() =~= existing
        + first.secrets@.to_set());
}

#[derive(Clone, Copy, Debug, PartialEq, Eq, Structural)]
pub enum RestoreStage {
    Listing,
    Reading,
    Applying,
    Deleting,
    Finished,
}

/// What the caller does next to restore a chart's backups.
#[derive(Debug)]
pub enum RestoreStep {
    /// List the secrets of the chart's namespace.
    ListSecrets,
    /// Write the backup held by `secrets[i]` to a file.
    ReadSecret(usize),
    /// Apply the file at `path` to the cluster; it came from `secrets[i]`.
    Apply(usize),
    /// Delete `secrets[i]`.
    Delete(usize),
    Finished,
}

/// The restore of a chart's backups as a sequence of steps: list the
/// namespace's secrets; for each backup secret, write it to a file, apply
/// the file, then delete the secret. An empty backup secret is deleted
/// without being applied. The first other failure stops the run.
pub struct ChartRestore {
    pub chart_name: String,
    pub secrets: Vec<String>,
    pub selected: Vec<usize>,
    pub index: usize,
    pub path: String,
    /// Whether the current secret's file was applied before its deletion.
    pub applied: bool,
    pub stage: RestoreStage,
    pub error: Option<HelmError>,
    /// The secrets deleted so far, as indices into `secrets`.
    pub deleted: Ghost<Seq<usize>>,
    /// The secrets whose backup was applied, as indices into `secrets`.
    pub restored: Ghost<Seq<usize>>,
}

impl ChartRestore {
    pub open spec fn wf(self) -> bool {
        match self.stage {
            RestoreStage::Listing => self.deleted@.len() == 0 && self.restored@.len() == 0
                && self.error is None,
            RestoreStage::Reading | RestoreStage::Applying | RestoreStage::Deleting => {
                &&& self.selected@ == backup_secret_indices(self.secrets@)
                &&& self.index < self.selected@.len()
                &&& self.deleted@ == self.selected@.take(self.index as int)
                &&& self.stage is Reading ==> !self.applied
                &&& self.stage is Applying ==> !self.applied
                &&& self.error is None
            },
            RestoreStage::Finished => self.error is None ==> self.selected@
                == backup_secret_indices(self.secrets@) && self.deleted@ == self.selected@,
        }
    }

    pub fn new(chart_name: String) -> (r: ChartRestore)
        ensures
            r.wf(),
            r.chart_name == chart_name,
            r.stage is Listing,
    {
        ChartRestore {
            chart_name,
            secrets: Vec::new(),
            selected: Vec::new(),
            index: 0,
            path: String::new(),
            applied: false,
            stage: RestoreStage::Listing,
            error: None,
            deleted: Ghost(Seq::empty()),
            restored: Ghost(Seq::empty()),
        }
    }

    /// The step the caller performs next.
    pub fn next_step(&self) -> (r: RestoreStep)
        requires
            self.wf(),
        ensures
            self.stage is Listing ==> r == RestoreStep::ListSecrets,
            self.stage is Reading ==> r == RestoreStep::ReadSecret(
                self.selected@[self.index as int],
            ),
            self.stage is Applying ==> r == RestoreStep::Apply(self.selected@[self.index as int]),
            self.stage is Deleting ==> r == RestoreStep::Delete(self.selected@[self.index as int]),
            self.stage is Finished ==> r == RestoreStep::Finished,
    {
        match self.stage {
            RestoreStage::Listing => RestoreStep::ListSecrets,
            RestoreStage::Reading => RestoreStep::ReadSecret(self.selected[self.index]),
            RestoreStage::Applying => RestoreStep::Apply(self.selected[self.index]),
            RestoreStage::Deleting => RestoreStep::Delete(self.selected[self.index]),
            RestoreStage::Finished => RestoreStep::Finished,
        }
    }

    /// Reports the namespace's secrets, or the failure to list them, which
    /// stops the restore with the cluster's messages.
    pub fn on_listed(&mut self, listed: Result<Vec<String>, CommandError>)
        requires
            old(self).wf(),
            old(self).stage is Listing,
        ensures
            final(self).wf(),
            final(self).chart_name == old(self).chart_name,
            listed matches Ok(names) ==> final(self).secrets == names && final(self).selected@
                == backup_secret_indices(names@) && final(self).stage == if final(
                self).selected@.len() == 0 {
                RestoreStage::Finished
            } else {
                RestoreStage::Reading
            } && final(self).index == 0,
            listed matches Err(f) ==> final(self).stage is Finished && (final(self).error matches Some(
                HelmError::CmdError(c, cmd, e),
            ) && c@ == old(self).chart_name@ && cmd == HelmCommand::Upgrade && e.message_safe@
                == f.message_safe@ && e.message_raw == f.message_raw),
    {
        match listed {
            Ok(names) => {
                self.secrets = names;
                self.selected = apply_chart_backup(&self.secrets);
                self.index = 0;
                self.applied = false;
                if self.selected.len() == 0 {
                    self.stage = RestoreStage::Finished;
                    assert(self.deleted@ =~= self.selected@);
                } else {
                    self.stage = RestoreStage::Reading;
                    assert(self.deleted@ =~= self.selected@.take(0));
                }
            },
            Err(f) => {
                self.error = Some(backup_command_error(self.chart_name.as_str(), f));
                self.stage = RestoreStage::Finished;
            },
        }
    }

    /// Reports the file written from the current backup secret: its path,
    /// or the failure. An empty secret is deleted next, without applying
    /// anything; any other failure stops the restore.
    pub fn on_read(&mut self, read: Result<String, CommandError>)
        requires
            old(self).wf(),
            old(self).stage is Reading,
        ensures
            final(self).wf(),
            final(self).chart_name == old(self).chart_name,
            final(self).index == old(self).index,
            final(self).selected == old(self).selected,
            read matches Ok(p) ==> final(self).stage is Applying && final(self).path == p,
            read matches Err(f) ==> (contains(lower_of(f.message_safe@), "no content"@) ==> final(
                self).stage is Deleting && !final(self).applied),
            read matches Err(f) ==> (!contains(lower_of(f.message_safe@), "no content"@) ==> final(
                self).stage is Finished && (final(self).error matches Some(
                HelmError::CmdError(c, cmd, e),
            ) && c@ == old(self).chart_name@ && e.message_safe@ == f.message_safe@
                && e.message_raw == f.message_raw)),
    {
        match read {
            Ok(p) => {
                self.path = p;
                self.stage = RestoreStage::Applying;
            },
            Err(f) => {
                match on_backup_file_failure(self.chart_name.as_str(), f) {
                    RestoreDecision::DeleteAndSkip => {
                        self.applied = false;
                        self.stage = RestoreStage::Deleting;
                    },
                    RestoreDecision::Fail(e) => {
                        self.error = Some(e);
                        self.stage = RestoreStage::Finished;
                    },
                }
            },
        }
    }

    /// Reports the applying of the current backup; a failure stops the
    /// restore, otherwise its secret is deleted next.
    pub fn on_applied(&mut self, applied: Result<(), CommandError>)
        requires
            old(self).wf(),
            old(self).stage is Applying,
        ensures
            final(self).wf(),
            final(self).chart_name == old(self).chart_name,
            final(self).index == old(self).index,
            final(self).selected == old(self).selected,
            applied is Ok ==> final(self).stage is Deleting && final(self).applied,
            applied matches Err(f) ==> final(self).stage is Finished && (final(self).error matches Some(
                HelmError::CmdError(c, cmd, e),
            ) && c@ == old(self).chart_name@ && e.message_safe@ == f.message_safe@
                && e.message_raw == f.message_raw),
    {
        match applied {
            Ok(()) => {
                self.applied = true;
                self.stage = RestoreStage::Deleting;
            },
            Err(f) => {
                self.error = Some(backup_command_error(self.chart_name.as_str(), f));
                self.stage = RestoreStage::Finished;
            },
        }
    }

    /// Reports the deletion of the current backup secret; a failure stops
    /// the restore, otherwise the next backup secret is read.
    pub fn on_deleted(&mut self, deleted: Result<(), CommandError>)
        requires
            old(self).wf(),
            old(self).stage is Deleting,
        ensures
            final(self).wf(),
            final(self).chart_name == old(self).chart_name,
            final(self).selected == old(self).selected,
            deleted is Ok ==> final(self).deleted@ == old(self).deleted@.push(
                old(self).selected@[old(self).index as int],
            ) && final(self).restored@ == if old(self).applied {
                old(self).restored@.push(old(self).selected@[old(self).index as int])
            } else {
                old(self).restored@
            } && if old(self).index + 1 < old(self).selected@.len() {
                final(self).stage is Reading && final(self).index == old(self).index + 1
            } else {
                final(self).stage is Finished && final(self).error is None
            },
            deleted matches Err(f) ==> final(self).stage is Finished && (final(self).error matches Some(
                HelmError::CmdError(c, cmd, e),
            ) && c@ == old(self).chart_name@ && e.message_safe@ == f.message_safe@
                && e.message_raw == f.message_raw),
    {
        match deleted {
            Ok(()) => {
                let n = self.selected.len();
                let ghost cur = self.selected@[self.index as int];
                self.deleted = Ghost(self.deleted@.push(cur));
                if self.applied {
                    self.restored = Ghost(self.restored@.push(cur));
                }
                assert(self.deleted@ =~= self.selected@.take(self.index + 1));
                self.applied = false;
                if self.index + 1 < n {
                    self.index = self.index + 1;
                    self.stage = RestoreStage::Reading;
                } else {
                    assert(self.selected@.take(self.index + 1) =~= self.selected@);
                    self.stage = RestoreStage::Finished;
                }
            },
            Err(f) => {
                self.error = Some(backup_command_error(self.chart_name.as_str(), f));
                self.stage = RestoreStage::Finished;
            },
        }
    }
}

} // verus!
