//! Giving up the privileges of the superuser, one step after the other.

use crate::config::schema::SecurityConfig;
use crate::text::{decimal, number, opt_str, opt_text};
use vstd::prelude::*;

verus! {

/// Configuration for the privilege-dropping sequence.
#[derive(Clone, Copy, Debug)]
pub struct PrivilegeDropConfig<'a> {
    pub user: &'a str,
    pub group: &'a str,
    pub chroot_dir: Option<&'a str>,
}

/// What is configured about privileges, with the defaults in place of what is not.
#[derive(Debug)]
pub struct PrivilegeSettings {
    pub user: String,
    pub group: String,
    pub chroot_dir: String,
}

/// Default user to drop privileges to when none is configured.
pub fn default_user() -> (r: &'static str)
    ensures
        r@ == "nobody"@,
{
    "nobody"
}

/// Default group to drop privileges to when none is configured.
pub fn default_group() -> (r: &'static str)
    ensures
        r@ == "nogroup"@,
{
    "nogroup"
}

/// Default chroot directory when none is configured.
pub fn default_chroot_dir() -> (r: &'static str)
    ensures
        r@ == "/var/lib/dns-filter"@,
{
    "/var/lib/dns-filter"
}

/// What is configured, or else what stands in for it.
pub open spec fn setting(configured: Option<String>, default: Seq<char>) -> Seq<char> {
    match configured {
        Some(s) => s@,
        None => default,
    }
}

fn text_or(configured: &Option<String>, default: &str) -> (r: String)
    ensures
        r@ == setting(*configured, default@),
{
    match configured {
        Some(s) => s.clone(),
        None => default.to_owned(),
    }
}

/// The user, the group and the root directory that a configuration names, with the defaults
/// in place of what it does not.
pub open spec fn effective(security: Option<SecurityConfig>) -> (Seq<char>, Seq<char>, Seq<char>) {
    match security {
        Some(s) => (
            setting(s.user, "nobody"@),
            setting(s.group, "nogroup"@),
            setting(s.chroot_dir, "/var/lib/dns-filter"@),
        ),
        None => ("nobody"@, "nogroup"@, "/var/lib/dns-filter"@),
    }
}

/// What is configured about privileges, with the defaults in place of what is not.
pub fn privilege_settings(security: &Option<SecurityConfig>) -> (r: PrivilegeSettings)
    ensures
        (r.user@, r.group@, r.chroot_dir@) == effective(*security),
        match *security {
            Some(s) => r.user@ == setting(s.user, "nobody"@) && r.group@ == setting(
                s.group,
                "nogroup"@,
            ) && r.chroot_dir@ == setting(s.chroot_dir, "/var/lib/dns-filter"@),
            None => r.user@ == "nobody"@ && r.group@ == "nogroup"@ && r.chroot_dir@
                == "/var/lib/dns-filter"@,
        },
{
    match security {
        Some(s) => PrivilegeSettings {
            user: text_or(&s.user, default_user()),
            group: text_or(&s.group, default_group()),
            chroot_dir: text_or(&s.chroot_dir, default_chroot_dir()),
        },
        None => PrivilegeSettings {
            user: default_user().to_owned(),
            group: default_group().to_owned(),
            chroot_dir: default_chroot_dir().to_owned(),
        },
    }
}

// ---- the sequence ----

/// The next step.
#[derive(Clone, Copy, Debug, PartialEq, Eq, Structural)]
pub enum Action {
    /// Find the number of the user, while the real user database is in reach.
    LookUpUser,
    /// Find the number of the group.
    LookUpGroup,
    /// Change the root directory.
    Chroot,
    /// Go to the new root directory.
    ChangeDirectory,
    /// Keep the capabilities across the change of the user.
    KeepCapabilities,
    /// Leave all supplementary groups.
    SetGroups,
    /// Change the group.
    SetGid,
    /// Change the user: the point of no return.
    SetUid,
    /// Permit nothing but to bind privileged ports.
    PermitNetBind,
    /// Enable nothing but to bind privileged ports.
    EnableNetBind,
    /// Keep no capabilities across further changes.
    ForgetCapabilities,
    /// Ask who the process is now.
    Verify,
    /// Nothing: the privileges are gone.
    Finished,
    /// Nothing: a step failed.
    Failed,
}

/// What came of a step.
#[derive(Debug)]
pub enum Event {
    /// It was done.
    Done,
    /// The user or the group has this number.
    Found(u32),
    /// There is no such user or group.
    NotFound,
    /// The process is this user with this group.
    Identity { uid: u32, gid: u32 },
    /// It failed, with this error.
    Error(String),
}

/// The sequence by which privileges are given up.
#[derive(Debug)]
pub struct PrivilegeDrop {
    user: String,
    group: String,
    chroot_dir: Option<String>,
    uid: u32,
    gid: u32,
    action: Action,
    failure: Option<String>,
}

/// A `PrivilegeDrop` with its texts.
#[verifier::ext_equal]
pub struct PrivilegeDropView {
    pub user: Seq<char>,
    pub group: Seq<char>,
    pub chroot_dir: Option<Seq<char>>,
    pub uid: u32,
    pub gid: u32,
    pub action: Action,
    pub failure: Option<Seq<char>>,
}

impl View for PrivilegeDrop {
    type V = PrivilegeDropView;

    closed spec fn view(&self) -> PrivilegeDropView {
        PrivilegeDropView {
            user: self.user@,
            group: self.group@,
            chroot_dir: opt_text(self.chroot_dir),
            uid: self.uid,
            gid: self.gid,
            action: self.action,
            failure: opt_text(self.failure),
        }
    }
}

/// Whether an event can come of a step.
pub open spec fn fits(action: Action, event: Event) -> bool {
    match action {
        Action::LookUpUser | Action::LookUpGroup => event is Found || event is NotFound || event is Error,
        Action::Verify => event is Identity,
        Action::Finished | Action::Failed => false,
        _ => event is Done || event is Error,
    }
}

/// The step that follows a step that was done.
pub open spec fn following(action: Action, has_chroot: bool) -> Action {
    match action {
        Action::LookUpUser => Action::LookUpGroup,
        Action::LookUpGroup => if has_chroot {
            Action::Chroot
        } else {
            Action::KeepCapabilities
        },
        Action::Chroot => Action::ChangeDirectory,
        Action::ChangeDirectory => Action::KeepCapabilities,
        Action::KeepCapabilities => Action::SetGroups,
        Action::SetGroups => Action::SetGid,
        Action::SetGid => Action::SetUid,
        Action::SetUid => Action::PermitNetBind,
        Action::PermitNetBind => Action::EnableNetBind,
        Action::EnableNetBind => Action::ForgetCapabilities,
        Action::ForgetCapabilities => Action::Verify,
        Action::Verify => Action::Finished,
        Action::Finished => Action::Finished,
        Action::Failed => Action::Failed,
    }
}

/// What the error of a step is about.
pub open spec fn context(s: PrivilegeDropView) -> Seq<char> {
    match s.action {
        Action::LookUpUser => "looking up user '"@ + s.user + "'"@,
        Action::LookUpGroup => "looking up group '"@ + s.group + "'"@,
        Action::Chroot => "chroot to "@ + s.chroot_dir->0,
        Action::ChangeDirectory => "chdir to / after chroot"@,
        Action::KeepCapabilities => "prctl(PR_SET_KEEPCAPS, 1)"@,
        Action::SetGroups => "setgroups"@,
        Action::SetGid => "setgid("@ + decimal(s.gid as nat) + ")"@,
        Action::SetUid => "setuid("@ + decimal(s.uid as nat) + ")"@,
        Action::PermitNetBind => "setting permitted capabilities"@,
        Action::EnableNetBind => "setting effective capabilities"@,
        Action::ForgetCapabilities => "prctl(PR_SET_KEEPCAPS, 0)"@,
        _ => ""@,
    }
}

impl PrivilegeDropView {
    /// The sequence after an error.
    pub open spec fn failed(self, message: Seq<char>) -> PrivilegeDropView {
        PrivilegeDropView { action: Action::Failed, failure: Some(message), ..self }
    }

    /// The sequence one step further.
    pub open spec fn further(self) -> PrivilegeDropView {
        PrivilegeDropView { action: following(self.action, self.chroot_dir is Some), ..self }
    }

    /// The sequence after an event.
    pub open spec fn stepped(self, event: Event) -> PrivilegeDropView {
        match event {
            Event::Done => self.further(),
            Event::Found(n) => if self.action is LookUpUser {
                PrivilegeDropView { uid: n, ..self }.further()
            } else {
                PrivilegeDropView { gid: n, ..self }.further()
            },
            Event::NotFound => self.failed(
                if self.action is LookUpUser {
                    "user '"@ + self.user + "' not found"@
                } else {
                    "group '"@ + self.group + "' not found"@
                },
            ),
            Event::Identity { uid, gid } => if uid != self.uid {
                self.failed(mismatch("uid"@, self.uid, uid))
            } else if gid != self.gid {
                self.failed(mismatch("gid"@, self.gid, gid))
            } else {
                self.further()
            },
            Event::Error(e) => self.failed(context(self) + ": "@ + e@),
        }
    }
}

/// The error where the process is not who it should be.
pub open spec fn mismatch(what: Seq<char>, expected: u32, actual: u32) -> Seq<char> {
    "privilege drop verification failed: expected "@ + what + " "@ + decimal(expected as nat)
        + ", got "@ + decimal(actual as nat)
}

fn mismatch_text(what: &str, expected: u32, actual: u32) -> (r: String)
    ensures
        r@ == mismatch(what@, expected, actual),
{
    let mut m = "privilege drop verification failed: expected ".to_owned();
    m.push_str(what);
    m.push_str(" ");
    m.push_str(number(expected as u64).as_str());
    m.push_str(", got ");
    m.push_str(number(actual as u64).as_str());
    m
}

/// The sequence at its beginning; there is none where the process does not run as the
/// superuser.
pub open spec fn initial(
    user: Seq<char>,
    group: Seq<char>,
    chroot_dir: Option<Seq<char>>,
    is_root: bool,
) -> Option<PrivilegeDropView> {
    if is_root {
        Some(
            PrivilegeDropView {
                user,
                group,
                chroot_dir,
                uid: 0,
                gid: 0,
                action: Action::LookUpUser,
                failure: None,
            },
        )
    } else {
        None
    }
}

/// How privileges are given up: not at all where the process does not run as the
/// superuser, and else by a sequence of steps.
pub fn drop_privileges(config: &PrivilegeDropConfig<'_>, is_root: bool) -> (r: Option<PrivilegeDrop>)
    ensures
        match (initial(config.user@, config.group@, opt_str(config.chroot_dir), is_root), r) {
            (Some(s), Some(d)) => d@ == s,
            (None, None) => true,
            _ => false,
        },
        r is Some <==> is_root,
        r matches Some(d) ==> d@ == (PrivilegeDropView {
            user: config.user@,
            group: config.group@,
            chroot_dir: opt_str(config.chroot_dir),
            uid: 0,
            gid: 0,
            action: Action::LookUpUser,
            failure: None,
        }),
{
    if !is_root {
        return None;
    }
    let chroot_dir = match config.chroot_dir {
        Some(d) => Some(d.to_owned()),
        None => None,
    };
    Some(
        PrivilegeDrop {
            user: config.user.to_owned(),
            group: config.group.to_owned(),
            chroot_dir,
            uid: 0,
            gid: 0,
            action: Action::LookUpUser,
            failure: None,
        },
    )
}

impl PrivilegeDrop {
    /// The next step.
    pub fn action(&self) -> (r: Action)
        ensures
            r == self@.action,
    {
        self.action
    }

    /// The number of the user to become.
    pub fn uid(&self) -> (r: u32)
        ensures
            r == self@.uid,
    {
        self.uid
    }

    /// The number of the group to become.
    pub fn gid(&self) -> (r: u32)
        ensures
            r == self@.gid,
    {
        self.gid
    }

    /// What failed, where something did.
    pub fn failure(&self) -> (r: Option<&str>)
        ensures
            opt_str(r) == self@.failure,
    {
        match &self.failure {
            Some(m) => Some(m.as_str()),
            None => None,
        }
    }

    fn context_text(&self) -> (r: String)
        requires
            self@.action is Chroot ==> self@.chroot_dir is Some,
        ensures
            r@ == context(self@),
    {
        match self.action {
            Action::LookUpUser => {
                let mut m = "looking up user '".to_owned();
                m.push_str(self.user.as_str());
                m.push_str("'");
                m
            },
            Action::LookUpGroup => {
                let mut m = "looking up group '".to_owned();
                m.push_str(self.group.as_str());
                m.push_str("'");
                m
            },
            Action::Chroot => {
                let mut m = "chroot to ".to_owned();
                if let Some(d) = &self.chroot_dir {
                    m.push_str(d.as_str());
                }
                m
            },
            Action::ChangeDirectory => "chdir to / after chroot".to_owned(),
            Action::KeepCapabilities => "prctl(PR_SET_KEEPCAPS, 1)".to_owned(),
            Action::SetGroups => "setgroups".to_owned(),
            Action::SetGid => {
                let mut m = "setgid(".to_owned();
                m.push_str(number(self.gid as u64).as_str());
                m.push_str(")");
                m
            },
            Action::SetUid => {
                let mut m = "setuid(".to_owned();
                m.push_str(number(self.uid as u64).as_str());
                m.push_str(")");
                m
            },
            Action::PermitNetBind => "setting permitted capabilities".to_owned(),
            Action::EnableNetBind => "setting effective capabilities".to_owned(),
            Action::ForgetCapabilities => "prctl(PR_SET_KEEPCAPS, 0)".to_owned(),
            _ => "".to_owned(),
        }
    }

    fn next_action(&self) -> (r: Action)
        ensures
            r == following(self@.action, self@.chroot_dir is Some),
    {
        match self.action {
            Action::LookUpUser => Action::LookUpGroup,
            Action::LookUpGroup => if self.chroot_dir.is_some() {
                Action::Chroot
            } else {
                Action::KeepCapabilities
            },
            Action::Chroot => Action::ChangeDirectory,
            Action::ChangeDirectory => Action::KeepCapabilities,
            Action::KeepCapabilities => Action::SetGroups,
            Action::SetGroups => Action::SetGid,
            Action::SetGid => Action::SetUid,
            Action::SetUid => Action::PermitNetBind,
            Action::PermitNetBind => Action::EnableNetBind,
            Action::EnableNetBind => Action::ForgetCapabilities,
            Action::ForgetCapabilities => Action::Verify,
            Action::Verify => Action::Finished,
            Action::Finished => Action::Finished,
            Action::Failed => Action::Failed,
        }
    }

    fn fail(&mut self, message: String)
        ensures
            final(self)@ == old(self)@.failed(message@),
    {
        self.action = Action::Failed;
        self.failure = Some(message);
    }

    fn go_on(&mut self)
        ensures
            final(self)@ == old(self)@.further(),
    {
        self.action = self.next_action();
    }

    /// Takes what came of a step.
    pub fn step(&mut self, event: Event)
        requires
            fits(old(self)@.action, event),
            old(self)@.action is Chroot ==> old(self)@.chroot_dir is Some,
        ensures
            final(self)@ == old(self)@.stepped(event),
            final(self)@.action is Chroot ==> final(self)@.chroot_dir is Some,
    {
        match event {
            Event::Done => self.go_on(),
            Event::Found(n) => {
                if self.action == Action::LookUpUser {
                    self.uid = n;
                } else {
                    self.gid = n;
                }
                self.go_on();
            },
            Event::NotFound => {
                let mut m = String::new();
                if self.action == Action::LookUpUser {
                    m.push_str("user '");
                    m.push_str(self.user.as_str());
                } else {
                    m.push_str("group '");
                    m.push_str(self.group.as_str());
                }
                m.push_str("' not found");
                assert(m@ =~= if self@.action is LookUpUser {
                    "user '"@ + self@.user + "' not found"@
                } else {
                    "group '"@ + self@.group + "' not found"@
                });
                self.fail(m);
            },
            Event::Identity { uid, gid } => {
                if uid != self.uid {
                    let m = mismatch_text("uid", self.uid, uid);
                    self.fail(m);
                } else if gid != self.gid {
                    let m = mismatch_text("gid", self.gid, gid);
                    self.fail(m);
                } else {
                    self.go_on();
                }
            },
            Event::Error(e) => {
                let mut m = self.context_text();
                m.push_str(": ");
                m.push_str(e.as_str());
                self.fail(m);
            },
        }
    }
}

/// The place of a step in the sequence.
pub open spec fn place(action: Action) -> nat {
    match action {
        Action::LookUpUser => 0,
        Action::LookUpGroup => 1,
        Action::Chroot => 2,
        Action::ChangeDirectory => 3,
        Action::KeepCapabilities => 4,
        Action::SetGroups => 5,
        Action::SetGid => 6,
        Action::SetUid => 7,
        Action::PermitNetBind => 8,
        Action::EnableNetBind => 9,
        Action::ForgetCapabilities => 10,
        Action::Verify => 11,
        Action::Finished => 12,
        Action::Failed => 13,
    }
}

/// Every step leads further down the sequence: the names are looked up before the root
/// directory changes, that comes before the groups go, the groups go before the user,
/// and all of it is verified at the end.
pub proof fn law_steps_keep_their_order(s: PrivilegeDropView, event: Event)
    requires
        fits(s.action, event),
    ensures
        place(s.action) < place(s.stepped(event).action),
        !(s.stepped(event).action is Failed) ==> place(s.stepped(event).action) <= place(s.action) + 3,
        s.stepped(event).action is Failed <==> s.stepped(event) == s.failed(
            s.stepped(event).failure->0,
        ),
{
}

/// The sequence is over only where the process was seen to be the user and the group that
/// were looked up.
pub proof fn law_finished_means_verified(s: PrivilegeDropView, event: Event)
    requires
        fits(s.action, event),
        s.stepped(event).action is Finished,
    ensures
        s.action is Verify,
        event == (Event::Identity { uid: s.uid, gid: s.gid }),
{
}

/// The numbers of the user and the group stay as they were looked up.
pub proof fn law_identity_stays(s: PrivilegeDropView, event: Event)
    requires
        fits(s.action, event),
        !(s.action is LookUpUser) && !(s.action is LookUpGroup),
    ensures
        s.stepped(event).uid == s.uid,
        s.stepped(event).gid == s.gid,
{
}

/// No step is left out: a step that was done leads to the one right behind it, and the root
/// directory is changed exactly where one is configured.
pub proof fn law_no_step_is_left_out(s: PrivilegeDropView, event: Event)
    requires
        fits(s.action, event),
        !(s.stepped(event).action is Failed),
    ensures
        ({
            let next = s.stepped(event).action;
            &&& s.action is LookUpUser ==> next is LookUpGroup
            &&& s.action is LookUpGroup && s.chroot_dir is Some ==> next is Chroot
            &&& s.action is LookUpGroup && s.chroot_dir is None ==> next is KeepCapabilities
            &&& s.action is Chroot ==> next is ChangeDirectory
            &&& s.action is ChangeDirectory ==> next is KeepCapabilities
            &&& s.action is KeepCapabilities ==> next is SetGroups
            &&& s.action is SetGroups ==> next is SetGid
            &&& s.action is SetGid ==> next is SetUid
            &&& s.action is SetUid ==> next is PermitNetBind
            &&& s.action is PermitNetBind ==> next is EnableNetBind
            &&& s.action is EnableNetBind ==> next is ForgetCapabilities
            &&& s.action is ForgetCapabilities ==> next is Verify
            &&& s.action is Verify ==> next is Finished
        }),
        s.stepped(event).user == s.user,
        s.stepped(event).group == s.group,
        s.stepped(event).chroot_dir == s.chroot_dir,
        s.stepped(event).failure == s.failure,
{
}

/// The user and the group to become are those that were found, each under its own name.
pub proof fn law_found_numbers_are_taken(s: PrivilegeDropView, n: u32)
    ensures
        s.action is LookUpUser ==> s.stepped(Event::Found(n)).uid == n && s.stepped(
            Event::Found(n),
        ).gid == s.gid,
        s.action is LookUpGroup ==> s.stepped(Event::Found(n)).gid == n && s.stepped(
            Event::Found(n),
        ).uid == s.uid,
{
}

/// Whatever goes wrong stops the sequence, and the reason is kept: an error, a user or a
/// group that is not there, and an identity other than the one that was looked up.
pub proof fn law_failures_stop_the_sequence(s: PrivilegeDropView, event: Event)
    requires
        fits(s.action, event),
    ensures
        s.stepped(event).action is Failed <==> event is Error || event is NotFound || (
        event matches Event::Identity { uid, gid } && (uid != s.uid || gid != s.gid)),
        s.stepped(event).action is Failed ==> s.stepped(event).failure is Some,
        event matches Event::Error(e) ==> (s.stepped(event).failure matches Some(m)
            && e@.is_suffix_of(m)),
{
    if let Event::Error(e) = event {
        let m = context(s) + ": "@ + e@;
        assert(m.subrange(m.len() - e@.len(), m.len() as int) =~= e@);
    }
}

/// Privileges are given up exactly where there are any; the sequence begins with the names
/// that are configured, and with nothing found yet.
pub proof fn law_only_the_superuser_gives_up(
    user: Seq<char>,
    group: Seq<char>,
    chroot_dir: Option<Seq<char>>,
    is_root: bool,
)
    ensures
        initial(user, group, chroot_dir, is_root) is Some <==> is_root,
        initial(user, group, chroot_dir, is_root) matches Some(s) ==> {
            &&& s.action is LookUpUser
            &&& s.user == user && s.group == group && s.chroot_dir == chroot_dir
            &&& s.failure is None
        },
{
}

/// What is configured about privileges is used, and what is not has its default: the user
/// `nobody`, the group `nogroup` and the directory `/var/lib/dns-filter`.
pub proof fn law_privileges_have_defaults(user: Option<String>, group: Option<String>, chroot_dir: Option<String>)
    ensures
        ({
            let s = SecurityConfig { user, group, chroot_dir };
            let (u, g, d) = effective(Some(s));
            &&& user matches Some(x) ==> u == x@
            &&& user is None ==> u == "nobody"@
            &&& group matches Some(x) ==> g == x@
            &&& group is None ==> g == "nogroup"@
            &&& chroot_dir matches Some(x) ==> d == x@
            &&& chroot_dir is None ==> d == "/var/lib/dns-filter"@
        }),
        effective(None) == ("nobody"@, "nogroup"@, "/var/lib/dns-filter"@),
{
}

/// A user or a group that does not exist is told by its name, and an identity that is not the
/// wanted one by what it is, the user before the group.
pub proof fn law_missing_names_are_told(s: PrivilegeDropView, uid: u32, gid: u32)
    ensures
        s.action is LookUpUser ==> s.stepped(Event::NotFound).failure == Some(
            "user '"@ + s.user + "' not found"@,
        ),
        s.action is LookUpGroup ==> s.stepped(Event::NotFound).failure == Some(
            "group '"@ + s.group + "' not found"@,
        ),
        uid != s.uid ==> s.stepped((Event::Identity { uid, gid })).failure == Some(
            mismatch("uid"@, s.uid, uid),
        ),
        uid == s.uid && gid != s.gid ==> s.stepped((Event::Identity { uid, gid })).failure == Some(
            mismatch("gid"@, s.gid, gid),
        ),
{
}

/// A step that fails is told by what it does.
pub proof fn law_failed_steps_are_told_by_name(s: PrivilegeDropView, e: String)
    ensures
        s.action is LookUpUser ==> s.stepped(Event::Error(e)).failure == Some(
            "looking up user '"@ + s.user + "'"@ + ": "@ + e@,
        ),
        s.action is LookUpGroup ==> s.stepped(Event::Error(e)).failure == Some(
            "looking up group '"@ + s.group + "'"@ + ": "@ + e@,
        ),
        s.action is Chroot ==> s.stepped(Event::Error(e)).failure == Some(
            "chroot to "@ + s.chroot_dir->0 + ": "@ + e@,
        ),
        s.action is ChangeDirectory ==> s.stepped(Event::Error(e)).failure == Some(
            "chdir to / after chroot"@ + ": "@ + e@,
        ),
        s.action is KeepCapabilities ==> s.stepped(Event::Error(e)).failure == Some(
            "prctl(PR_SET_KEEPCAPS, 1)"@ + ": "@ + e@,
        ),
        s.action is SetGroups ==> s.stepped(Event::Error(e)).failure == Some(
            "setgroups"@ + ": "@ + e@,
        ),
        s.action is SetGid ==> s.stepped(Event::Error(e)).failure == Some(
            "setgid("@ + decimal(s.gid as nat) + ")"@ + ": "@ + e@,
        ),
        s.action is SetUid ==> s.stepped(Event::Error(e)).failure == Some(
            "setuid("@ + decimal(s.uid as nat) + ")"@ + ": "@ + e@,
        ),
        s.action is PermitNetBind ==> s.stepped(Event::Error(e)).failure == Some(
            "setting permitted capabilities"@ + ": "@ + e@,
        ),
        s.action is EnableNetBind ==> s.stepped(Event::Error(e)).failure == Some(
            "setting effective capabilities"@ + ": "@ + e@,
        ),
        s.action is ForgetCapabilities ==> s.stepped(Event::Error(e)).failure == Some(
            "prctl(PR_SET_KEEPCAPS, 0)"@ + ": "@ + e@,
        ),
{
}

} // verus!
