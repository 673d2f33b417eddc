use vstd::prelude::*;

use crate::config::tui::TuiConfigMode;
use crate::config::userinfo::{parse_subscription_userinfo, userinfo_spec};
use crate::document::{
    obj_has_key, obj_set, doc_to_json, parse_json_doc, parse_yaml_doc, yaml_doc_of, yaml_parses,
    Doc,
};
use crate::utils::script::run_script;

verus! {

/// The user agent presented when none was configured for a remote profile.
pub const DEFAULT_USER_AGENT: &'static str = "Mihomo-TUI/v0.1.0 (clash-verge)";

/// A profile's traffic numbers, as reported by its subscription.
#[derive(Clone, Copy, Debug, PartialEq, Eq, Structural)]
pub struct ProfileTraffics {
    pub used: Option<u64>,
    pub total: Option<u64>,
}

/// Where and how a remote profile is fetched.
#[derive(Clone, Debug)]
pub struct ProfileRemote {
    pub url: String,
    pub user_agent: String,
    pub use_system_proxy: bool,
    pub use_mihomo_proxy: bool,
    pub allow_invalid_certificates: bool,
}

impl Default for ProfileRemote {
    fn default() -> (r: Self)
        ensures
            r.url@ == Seq::<char>::empty(),
            r.user_agent@ == DEFAULT_USER_AGENT@,
            !r.use_system_proxy,
            !r.use_mihomo_proxy,
            !r.allow_invalid_certificates,
    {
        ProfileRemote {
            url: String::new(),
            user_agent: String::from_str(DEFAULT_USER_AGENT),
            use_system_proxy: false,
            use_mihomo_proxy: false,
            allow_invalid_certificates: false,
        }
    }
}

/// One named proxy configuration source: local, or fetched from a remote
/// subscription. The `updating` marker is transient: it is true only strictly
/// between the start and the end of one in-flight refresh, and is never
/// persisted.
#[derive(Clone, Debug)]
pub struct Profile {
    pub uuid: String,
    pub name: String,
    pub remote: Option<ProfileRemote>,
    pub updated_at: Option<u64>,
    pub expired_at: Option<u64>,
    pub traffics: Option<ProfileTraffics>,
    pub updating: bool,
}

/// Relies on uuid::Uuid::new_v4 and its Display: a fresh random v4 UUID in
/// canonical hyphenated form, which is always 36 ASCII characters.
#[verifier::external_body]
fn new_uuid() -> (r: String)
    ensures
        r@.len() == 36,
{
    uuid::Uuid::new_v4().to_string()
}

impl Default for Profile {
    fn default() -> (r: Self)
        ensures
            r.uuid@.len() == 36,
            r.name@ == "New Profile"@,
            r.remote is None,
            r.updated_at is None,
            r.expired_at is None,
            r.traffics is None,
            !r.updating,
    {
        Profile {
            uuid: new_uuid(),
            name: String::from_str("New Profile"),
            remote: None,
            updated_at: None,
            expired_at: None,
            traffics: None,
            updating: false,
        }
    }
}

/// How one remote refresh attempt ended; the surrounding application performs
/// the fetch and the persist and reports the outcome here.
#[derive(Clone, Debug)]
pub enum RefreshOutcome {
    /// The remote answered and the body was persisted; the
    /// `Subscription-Userinfo` header, if the response carried one.
    Fetched { userinfo: Option<String> },
    /// The fetch, or persisting its body, failed.
    Failed,
}

impl Profile {
    /// A profile with no remote is local: refreshing it is a no-op.
    pub open spec fn is_remote(self) -> bool {
        self.remote is Some
    }

    /// Mark a refresh as in flight.
    pub fn begin_update(&mut self)
        ensures
            *final(self) == (Profile { updating: true, ..*old(self) }),
    {
        self.updating = true;
    }

    /// Finish one refresh attempt. Whatever the outcome — success, with or
    /// without a `Subscription-Userinfo` header, or failure — the transient
    /// `updating` marker is false when this returns. On success the traffic
    /// and expiry numbers follow the header exactly and the refresh time is
    /// recorded; on failure nothing else changes.
    pub fn finish_update(&mut self, outcome: RefreshOutcome, now: u64)
        ensures
            !final(self).updating,
            final(self).uuid == old(self).uuid,
            final(self).name == old(self).name,
            final(self).remote == old(self).remote,
            match outcome {
                RefreshOutcome::Failed => *final(self) == (Profile {
                    updating: false,
                    ..*old(self)
                }),
                RefreshOutcome::Fetched { userinfo } => {
                    &&& final(self).updated_at == Some(now)
                    &&& match userinfo {
                        None => final(self).traffics == old(self).traffics && final(self).expired_at == old(self).expired_at,
                        Some(h) => {
                            let info = userinfo_spec(h@);
                            final(self).traffics == Some(
                                ProfileTraffics { used: info.used, total: info.total },
                            ) && final(self).expired_at == info.expire
                        },
                    }
                },
            },
    {
        match outcome {
            RefreshOutcome::Failed => {},
            RefreshOutcome::Fetched { userinfo } => {
                match userinfo {
                    None => {},
                    Some(h) => {
                        let info = parse_subscription_userinfo(h.as_str());
                        self.traffics = Some(
                            ProfileTraffics { used: info.used, total: info.total },
                        );
                        self.expired_at = info.expire;
                    },
                }
                self.updated_at = Some(now);
            },
        }
        self.updating = false;
    }
}

/// The character of one decimal digit.
pub open spec fn digit_char(d: int) -> char
    recommends
        0 <= d <= 9,
{
    ((d + 48) as u8) as char
}

/// `n` written in decimal, most significant digit first.
pub open spec fn dec_str(n: int) -> Seq<char>
    recommends
        n >= 0,
    decreases n,
{
    if n < 10 {
        seq![digit_char(n)]
    } else {
        dec_str(n / 10).push(digit_char(n % 10))
    }
}

fn digit_str(d: u8) -> (r: &'static str)
    requires
        d <= 9,
    ensures
        r@ == seq![digit_char(d as int)],
{
    let r: &'static str = match d {
        0 => "0",
        1 => "1",
        2 => "2",
        3 => "3",
        4 => "4",
        5 => "5",
        6 => "6",
        7 => "7",
        8 => "8",
        _ => "9",
    };
    proof {
        reveal_strlit("0");
        reveal_strlit("1");
        reveal_strlit("2");
        reveal_strlit("3");
        reveal_strlit("4");
        reveal_strlit("5");
        reveal_strlit("6");
        reveal_strlit("7");
        reveal_strlit("8");
        reveal_strlit("9");
        assert(r@ =~= seq![digit_char(d as int)]);
    }
    r
}

/// `n` written out in decimal.
pub fn decimal_string(n: u128) -> (r: String)
    ensures
        r@ == dec_str(n as int),
    decreases n,
{
    let d = (n % 10) as u8;
    if n < 10 {
        let s = String::from_str(digit_str(d));
        proof {
            assert(s@ =~= dec_str(n as int));
        }
        s
    } else {
        let mut s = decimal_string(n / 10);
        s.append(digit_str(d));
        proof {
            assert(s@ =~= dec_str(n as int));
        }
        s
    }
}

/// The used share of the traffic budget, in tenths of a percent, rounded to
/// the nearest tenth.
pub open spec fn percent_permille(u: u64, t: u64) -> int
    recommends
        t > 0,
{
    (u * 1000 + t as int / 2) / t as int
}

/// The used share of the traffic budget as displayed: one decimal place and a
/// percent sign, e.g. "15.0%".
pub open spec fn percent_str(u: u64, t: u64) -> Seq<char>
    recommends
        t > 0,
{
    dec_str(percent_permille(u, t) / 10) + seq![
        '.',
        digit_char(percent_permille(u, t) % 10),
        '%',
    ]
}

/// The two script stages of the activation pipeline.
#[derive(Clone, Copy, Debug, PartialEq, Eq, Structural)]
pub enum ActivationStage {
    /// The profile's own extend script.
    ProfileScript,
    /// The global extend script shared across all profiles.
    GlobalScript,
}

/// Why an activation attempt was aborted. The first failing stage aborts the
/// whole sequence; nothing is submitted to the controller.
#[derive(Debug, PartialEq)]
pub enum ActivationError {
    /// The profile's stored document is not valid YAML.
    SourceParse,
    /// A script stage failed: a syntax error, a missing `main` entry point, a
    /// thrown value or an exceeded resource ceiling, with the sandbox's
    /// message.
    Script { stage: ActivationStage, message: String },
    /// A script ran but returned something that is not valid JSON.
    ScriptOutput { stage: ActivationStage },
    /// The document could not be written out for the script stage.
    Serialize,
    /// After all stages the document is not a mapping, so the policy field
    /// cannot be injected.
    NotMapping,
}

/// `d` is the dashboard mode's scalar: the mode's wire spelling as a string.
pub open spec fn mode_value_doc(d: Doc, mode: TuiConfigMode) -> bool {
    d matches Doc::Str(s) && s@ == mode.as_str_spec()
}

/// The first `mode` entry of the mapping carries the dashboard mode.
pub open spec fn mode_set(es: Seq<(String, Doc)>, mode: TuiConfigMode) -> bool {
    exists|i: int|
        #![trigger es[i]]
        0 <= i < es.len() && es[i].0@ == "mode"@ && (forall|j: int|
            0 <= j < i ==> es[j].0@ != "mode"@) && mode_value_doc(es[i].1, mode)
}

/// `post` is `pre` with the dashboard mode injected: the first `mode` entry
/// replaced in place if one exists, a single new `mode` entry appended
/// otherwise, and every other entry untouched.
pub open spec fn mode_injected(
    pre: Seq<(String, Doc)>,
    post: Seq<(String, Doc)>,
    mode: TuiConfigMode,
) -> bool {
    if obj_has_key(pre, "mode"@) {
        exists|i: int|
            #![trigger pre[i]]
            0 <= i < pre.len() && pre[i].0@ == "mode"@ && (forall|j: int|
                0 <= j < i ==> pre[j].0@ != "mode"@) && post == pre.update(
                i,
                (pre[i].0, post[i].1),
            ) && mode_value_doc(post[i].1, mode)
    } else {
        post.len() == pre.len() + 1 && post.take(pre.len() as int) == pre && post.last().0@
            == "mode"@ && mode_value_doc(post.last().1, mode)
    }
}

impl Profile {
    /// One script stage: an absent script is the identity transform, never an
    /// error; a present script runs in the sandbox over the document's JSON
    /// text, and its output is read back. Failures carry the stage.
    pub fn apply_extend_scripts(script: Option<&str>, value: Doc, stage: ActivationStage) -> (r:
        Result<Doc, ActivationError>)
        ensures
            script is None ==> r == Ok::<Doc, ActivationError>(value),
            match r {
                Ok(_) => true,
                Err(e) => script is Some && match e {
                    ActivationError::Script { stage: s, .. } => s == stage,
                    ActivationError::ScriptOutput { stage: s } => s == stage,
                    ActivationError::Serialize => true,
                    _ => false,
                },
            },
    {
        let script_src = match script {
            None => {
                return Ok(value);
            },
            Some(s) => s,
        };
        let json = match doc_to_json(value) {
            Some(j) => j,
            None => {
                return Err(ActivationError::Serialize);
            },
        };
        let out = match run_script(script_src, json.as_str()) {
            Ok(o) => o,
            Err(message) => {
                return Err(ActivationError::Script { stage, message });
            },
        };
        match parse_json_doc(out.as_str()) {
            Some(d) => Ok(d),
            None => Err(ActivationError::ScriptOutput { stage }),
        }
    }

    /// Inject the dashboard policy: set the top-level `mode` field to the
    /// configured routing mode. Fails exactly when the document is not a
    /// mapping.
    pub fn apply_tui_config(value: Doc, mode: TuiConfigMode) -> (r: Result<Doc, ActivationError>)
        ensures
            match value {
                Doc::Obj(es) => r matches Ok(d) && d matches Doc::Obj(es2) && mode_injected(
                    es@,
                    es2@,
                    mode,
                ) && mode_set(es2@, mode),
                _ => r == Err::<Doc, ActivationError>(ActivationError::NotMapping),
            },
    {
        match value {
            Doc::Obj(es) => {
                let ghost pre = es@;
                let key = String::from_str("mode");
                let val = Doc::Str(mode.as_str().to_owned());
                let ghost gval = val;
                let es2 = obj_set(es, key, val);
                proof {
                    if obj_has_key(pre, "mode"@) {
                        let i = choose|i: int|
                            #![trigger pre[i]]
                            0 <= i < pre.len() && pre[i].0@ == "mode"@ && (forall|j: int|
                                0 <= j < i ==> pre[j].0@ != "mode"@) && es2@ == pre.update(
                                i,
                                (pre[i].0, gval),
                            );
                        assert(es2@[i] == (pre[i].0, gval));
                        assert(mode_injected(pre, es2@, mode));
                        assert(mode_set(es2@, mode));
                    } else {
                        assert(es2@.take(pre.len() as int) =~= pre);
                        assert(es2@[pre.len() as int].0@ == "mode"@);
                        assert(mode_set(es2@, mode));
                    }
                }
                Ok(Doc::Obj(es2))
            },
            _ => Err(ActivationError::NotMapping),
        }
    }

    /// The used share of the traffic budget, displayed to one decimal place
    /// ("15.0%"): known only when the subscription reported both the used and
    /// the total bytes, and the total is not zero.
    pub fn get_used_str(&self) -> (r: Option<String>)
        ensures
            match self.traffics {
                Some(t) => match (t.used, t.total) {
                    (Some(u), Some(tt)) => if tt > 0 {
                        r matches Some(s) && s@ == percent_str(u, tt)
                    } else {
                        r is None
                    },
                    _ => r is None,
                },
                None => r is None,
            },
    {
        let t = match &self.traffics {
            Some(t) => t,
            None => {
                return None;
            },
        };
        let (u, tt) = match (t.used, t.total) {
            (Some(u), Some(tt)) => (u, tt),
            _ => {
                return None;
            },
        };
        if tt == 0 {
            return None;
        }
        let permille = ((u as u128) * 1000 + (tt as u128) / 2) / (tt as u128);
        let frac = (permille % 10) as u8;
        let mut s = decimal_string(permille / 10);
        s.append(".");
        s.append(digit_str(frac));
        s.append("%");
        proof {
            reveal_strlit(".");
            reveal_strlit("%");
            assert(permille as int == percent_permille(u, tt));
            assert(s@ =~= percent_str(u, tt));
        }
        Some(s)
    }

    /// The whole transformation sequence of one activation: the per-profile
    /// script, then the global script, then the policy injection. The first
    /// failure aborts the sequence. With both scripts absent the result is
    /// the source document with exactly the `mode` field injected; whatever a
    /// script returned, a successful result is a mapping whose `mode` entry
    /// carries the dashboard mode.
    pub fn plan_activation(
        source: Doc,
        profile_script: Option<&str>,
        global_script: Option<&str>,
        mode: TuiConfigMode,
    ) -> (r: Result<Doc, ActivationError>)
        ensures
            profile_script is None && global_script is None ==> match source {
                Doc::Obj(es) => r matches Ok(d) && d matches Doc::Obj(es2) && mode_injected(
                    es@,
                    es2@,
                    mode,
                ),
                _ => r == Err::<Doc, ActivationError>(ActivationError::NotMapping),
            },
            r matches Ok(d) ==> d matches Doc::Obj(es2) && mode_set(es2@, mode),
            r matches Err(e) ==> !(e matches ActivationError::SourceParse),
            r matches Err(ActivationError::Script { stage: ActivationStage::ProfileScript, .. })
                ==> profile_script is Some,
            r matches Err(ActivationError::Script { stage: ActivationStage::GlobalScript, .. })
                ==> global_script is Some,
            r matches Err(ActivationError::ScriptOutput { stage: ActivationStage::ProfileScript })
                ==> profile_script is Some,
            r matches Err(ActivationError::ScriptOutput { stage: ActivationStage::GlobalScript })
                ==> global_script is Some,
    {
        let value = match Self::apply_extend_scripts(
            profile_script,
            source,
            ActivationStage::ProfileScript,
        ) {
            Ok(v) => v,
            Err(e) => {
                return Err(e);
            },
        };
        let value = match Self::apply_extend_scripts(
            global_script,
            value,
            ActivationStage::GlobalScript,
        ) {
            Ok(v) => v,
            Err(e) => {
                return Err(e);
            },
        };
        Self::apply_tui_config(value, mode)
    }
}

/// The registry of profiles: an ordered sequence, unique by id, whose
/// insertion order is the display order. Loaded from disk once by the
/// surrounding application, persisted on demand.
pub struct ProfileManager {
    profiles: Vec<Profile>,
}

/// The registry's id invariant: no two profiles share an id.
pub open spec fn uuids_unique(profiles: Seq<Profile>) -> bool {
    forall|i: int, j: int| 0 <= i < j < profiles.len() ==> profiles[i].uuid@ != profiles[j].uuid@
}

impl ProfileManager {
    pub closed spec fn profiles_spec(self) -> Seq<Profile> {
        self.profiles@
    }

    /// An empty registry, as used when no registry document exists on disk.
    pub fn new() -> (r: Self)
        ensures
            r.profiles_spec() == Seq::<Profile>::empty(),
            uuids_unique(r.profiles_spec()),
    {
        ProfileManager { profiles: Vec::new() }
    }

    /// The registry as loaded from its persisted document, which keeps the
    /// profiles unique by id and in display order.
    pub fn from_profiles(profiles: Vec<Profile>) -> (r: Self)
        requires
            uuids_unique(profiles@),
        ensures
            r.profiles_spec() == profiles@,
            uuids_unique(r.profiles_spec()),
    {
        ProfileManager { profiles }
    }

    pub fn len(&self) -> (r: usize)
        ensures
            r == self.profiles_spec().len(),
    {
        self.profiles.len()
    }

    /// The guarded view of the registry, for reading or in-place mutation.
    pub fn get_all(&mut self) -> (r: &mut Vec<Profile>)
        ensures
            (*r)@ == old(self).profiles_spec(),
            final(self).profiles_spec() == final(r)@,
    {
        &mut self.profiles
    }

    /// The fallback activation document: built from an empty mapping, run
    /// through the global script if one exists, with the dashboard mode
    /// injected. With no global script the result is a mapping holding
    /// exactly the one injected `mode` field.
    pub fn plan_fallback_activation(global_script: Option<&str>, mode: TuiConfigMode) -> (r: Result<
        Doc,
        ActivationError,
    >)
        ensures
            global_script is None ==> (r matches Ok(d) && d matches Doc::Obj(es) && es@.len() == 1
                && es@[0].0@ == "mode"@ && mode_value_doc(es@[0].1, mode)),
            r matches Ok(d) ==> d matches Doc::Obj(es) && mode_set(es@, mode),
    {
        let source = Doc::Obj(Vec::new());
        let r = Profile::plan_activation(source, None, global_script, mode);
        proof {
            if global_script is None {
                if let Ok(d) = &r {
                    if let Doc::Obj(es) = d {
                        assert(es@[0] == es@.last());
                    }
                }
            }
        }
        r
    }
}

/// Resolve one stored profile document and run it through the pipeline: parse
/// the persisted YAML text, apply the scripts, inject the policy. Fails with
/// `SourceParse` exactly when the stored text is not valid YAML; a script
/// failure carries the stage that failed, and only a stage whose script
/// exists can fail. With both scripts absent the result is owed: exactly the
/// stored document with the `mode` field injected.
pub fn activate_document(
    source_yaml: &str,
    profile_script: Option<&str>,
    global_script: Option<&str>,
    mode: TuiConfigMode,
) -> (r: Result<Doc, ActivationError>)
    ensures
        r == Err::<Doc, ActivationError>(ActivationError::SourceParse) <==> !yaml_parses(
            source_yaml@,
        ),
        r matches Ok(d) ==> d matches Doc::Obj(es) && mode_set(es@, mode),
        profile_script is None && global_script is None && yaml_parses(source_yaml@) ==> match (
        yaml_doc_of(source_yaml@)) {
            Doc::Obj(es) => r matches Ok(d) && d matches Doc::Obj(es2) && mode_injected(
                es@,
                es2@,
                mode,
            ),
            _ => r == Err::<Doc, ActivationError>(ActivationError::NotMapping),
        },
        r matches Err(ActivationError::Script { stage: ActivationStage::ProfileScript, .. })
            ==> profile_script is Some,
        r matches Err(ActivationError::Script { stage: ActivationStage::GlobalScript, .. })
            ==> global_script is Some,
        r matches Err(ActivationError::ScriptOutput { stage: ActivationStage::ProfileScript })
            ==> profile_script is Some,
        r matches Err(ActivationError::ScriptOutput { stage: ActivationStage::GlobalScript })
            ==> global_script is Some,
{
    let source = match parse_yaml_doc(source_yaml) {
        Some(d) => d,
        None => {
            return Err(ActivationError::SourceParse);
        },
    };
    Profile::plan_activation(source, profile_script, global_script, mode)
}

} // verus!
