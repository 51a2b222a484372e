use vstd::prelude::*;
use crate::error::MediaSoupError;
use crate::json::same_text;

verus! {

/// How much a media worker logs.
#[derive(Debug, Clone, Copy, PartialEq, Eq, Structural)]
pub enum WorkerLogLevel {
    Debug,
    Warn,
    Error,
    /// No logging.
    Off,
}

/// The areas a media worker logs about.
#[derive(Debug, Clone, Copy, PartialEq, Eq, Structural)]
pub enum WorkerLogTag {
    Info,
    Ice,
    Dtls,
    Rtp,
    Srtp,
    Rtcp,
    Rtx,
    Bwe,
    Score,
    Simulcast,
    Svc,
    Sctp,
    Message,
}

/// The lowercase form of a text, as `str::to_lowercase` computes it.
pub uninterp spec fn lowercase(text: Seq<char>) -> Seq<char>;

/// `str::to_lowercase`: the text with every character replaced by its
/// Unicode lowercase mapping.  Only that the result is this function of the
/// input is claimed.
#[verifier::external_body]
fn to_lowercase(text: &str) -> (lower: String)
    ensures
        lower@ == lowercase(text@),
{
    text.to_lowercase()
}

/// The log level a lowercase name selects; unknown names select `Warn`.
pub open spec fn log_level_named(name: Seq<char>) -> WorkerLogLevel {
    if name == "debug"@ {
        WorkerLogLevel::Debug
    } else if name == "warn"@ {
        WorkerLogLevel::Warn
    } else if name == "error"@ {
        WorkerLogLevel::Error
    } else if name == "none"@ || name == "off"@ {
        WorkerLogLevel::Off
    } else {
        WorkerLogLevel::Warn
    }
}

/// The log tag a lowercase name selects; unknown names select `Info`.
pub open spec fn log_tag_named(name: Seq<char>) -> WorkerLogTag {
    if name == "info"@ {
        WorkerLogTag::Info
    } else if name == "ice"@ {
        WorkerLogTag::Ice
    } else if name == "dtls"@ {
        WorkerLogTag::Dtls
    } else if name == "rtp"@ {
        WorkerLogTag::Rtp
    } else if name == "srtp"@ {
        WorkerLogTag::Srtp
    } else if name == "rtcp"@ {
        WorkerLogTag::Rtcp
    } else if name == "rtx"@ {
        WorkerLogTag::Rtx
    } else if name == "bwe"@ {
        WorkerLogTag::Bwe
    } else if name == "score"@ {
        WorkerLogTag::Score
    } else if name == "simulcast"@ {
        WorkerLogTag::Simulcast
    } else if name == "svc"@ {
        WorkerLogTag::Svc
    } else if name == "sctp"@ {
        WorkerLogTag::Sctp
    } else if name == "message"@ {
        WorkerLogTag::Message
    } else {
        WorkerLogTag::Info
    }
}

/// Each log level name selects the level it names ("none" and "off" both
/// switch logging off); every other name selects the default, `Warn`.
pub proof fn lemma_log_level_names(name: Seq<char>)
    ensures
        log_level_named("debug"@) == WorkerLogLevel::Debug,
        log_level_named("warn"@) == WorkerLogLevel::Warn,
        log_level_named("error"@) == WorkerLogLevel::Error,
        log_level_named("none"@) == WorkerLogLevel::Off,
        log_level_named("off"@) == WorkerLogLevel::Off,
        name != "debug"@ && name != "warn"@ && name != "error"@ && name != "none"@ && name
            != "off"@ ==> log_level_named(name) == WorkerLogLevel::Warn,
{
    reveal_strlit("debug");
    reveal_strlit("warn");
    reveal_strlit("error");
    reveal_strlit("none");
    reveal_strlit("off");
    assert("error"@ != "debug"@) by {
        assert("error"@[0] != "debug"@[0]);
    }
    assert("none"@ != "warn"@) by {
        assert("none"@[0] != "warn"@[0]);
    }
    assert("off"@.len() != "debug"@.len() && "off"@.len() != "warn"@.len() && "off"@.len()
        != "error"@.len() && "off"@.len() != "none"@.len());
}

/// The log level a lowercase name selects.
pub fn log_level_from_lowercase(name: &String) -> (level: WorkerLogLevel)
    ensures
        level == log_level_named(name@),
        name@ == "debug"@ ==> level == WorkerLogLevel::Debug,
        name@ == "warn"@ ==> level == WorkerLogLevel::Warn,
        name@ == "error"@ ==> level == WorkerLogLevel::Error,
        name@ == "none"@ || name@ == "off"@ ==> level == WorkerLogLevel::Off,
        name@ != "debug"@ && name@ != "warn"@ && name@ != "error"@ && name@ != "none"@ && name@
            != "off"@ ==> level == WorkerLogLevel::Warn,
{
    proof {
        lemma_log_level_names(name@);
    }
    if same_text(name, "debug") {
        WorkerLogLevel::Debug
    } else if same_text(name, "warn") {
        WorkerLogLevel::Warn
    } else if same_text(name, "error") {
        WorkerLogLevel::Error
    } else if same_text(name, "none") || same_text(name, "off") {
        WorkerLogLevel::Off
    } else {
        WorkerLogLevel::Warn
    }
}

/// Each log tag name selects the tag it names; every other name selects the
/// default, `Info`.
pub proof fn lemma_log_tag_names(name: Seq<char>)
    ensures
        log_tag_named("info"@) == WorkerLogTag::Info,
        log_tag_named("ice"@) == WorkerLogTag::Ice,
        log_tag_named("dtls"@) == WorkerLogTag::Dtls,
        log_tag_named("rtp"@) == WorkerLogTag::Rtp,
        log_tag_named("srtp"@) == WorkerLogTag::Srtp,
        log_tag_named("rtcp"@) == WorkerLogTag::Rtcp,
        log_tag_named("rtx"@) == WorkerLogTag::Rtx,
        log_tag_named("bwe"@) == WorkerLogTag::Bwe,
        log_tag_named("score"@) == WorkerLogTag::Score,
        log_tag_named("simulcast"@) == WorkerLogTag::Simulcast,
        log_tag_named("svc"@) == WorkerLogTag::Svc,
        log_tag_named("sctp"@) == WorkerLogTag::Sctp,
        log_tag_named("message"@) == WorkerLogTag::Message,
        name != "info"@ && name != "ice"@ && name != "dtls"@ && name != "rtp"@ &&
            name != "srtp"@ && name != "rtcp"@ && name != "rtx"@ && name != "bwe"@ &&
            name != "score"@ && name != "simulcast"@ && name != "svc"@ && name != "sctp"@ &&
            name != "message"@ ==> log_tag_named(name) == WorkerLogTag::Info,
{
    reveal_strlit("info");
    reveal_strlit("ice");
    reveal_strlit("dtls");
    reveal_strlit("rtp");
    reveal_strlit("srtp");
    reveal_strlit("rtcp");
    reveal_strlit("rtx");
    reveal_strlit("bwe");
    reveal_strlit("score");
    reveal_strlit("simulcast");
    reveal_strlit("svc");
    reveal_strlit("sctp");
    reveal_strlit("message");
    assert("ice"@ != "info"@) by {
        assert("ice"@.len() != "info"@.len());
    }
    assert("dtls"@ != "info"@) by {
        assert("dtls"@[0] != "info"@[0]);
    }
    assert("dtls"@ != "ice"@) by {
        assert("dtls"@.len() != "ice"@.len());
    }
    assert("rtp"@ != "info"@) by {
        assert("rtp"@.len() != "info"@.len());
    }
    assert("rtp"@ != "ice"@) by {
        assert("rtp"@[0] != "ice"@[0]);
    }
    assert("rtp"@ != "dtls"@) by {
        assert("rtp"@.len() != "dtls"@.len());
    }
    assert("srtp"@ != "info"@) by {
        assert("srtp"@[0] != "info"@[0]);
    }
    assert("srtp"@ != "ice"@) by {
        assert("srtp"@.len() != "ice"@.len());
    }
    assert("srtp"@ != "dtls"@) by {
        assert("srtp"@[0] != "dtls"@[0]);
    }
    assert("srtp"@ != "rtp"@) by {
        assert("srtp"@.len() != "rtp"@.len());
    }
    assert("rtcp"@ != "info"@) by {
        assert("rtcp"@[0] != "info"@[0]);
    }
    assert("rtcp"@ != "ice"@) by {
        assert("rtcp"@.len() != "ice"@.len());
    }
    assert("rtcp"@ != "dtls"@) by {
        assert("rtcp"@[0] != "dtls"@[0]);
    }
    assert("rtcp"@ != "rtp"@) by {
        assert("rtcp"@.len() != "rtp"@.len());
    }
    assert("rtcp"@ != "srtp"@) by {
        assert("rtcp"@[0] != "srtp"@[0]);
    }
    assert("rtx"@ != "info"@) by {
        assert("rtx"@.len() != "info"@.len());
    }
    assert("rtx"@ != "ice"@) by {
        assert("rtx"@[0] != "ice"@[0]);
    }
    assert("rtx"@ != "dtls"@) by {
        assert("rtx"@.len() != "dtls"@.len());
    }
    assert("rtx"@ != "rtp"@) by {
        assert("rtx"@[2] != "rtp"@[2]);
    }
    assert("rtx"@ != "srtp"@) by {
        assert("rtx"@.len() != "srtp"@.len());
    }
    assert("rtx"@ != "rtcp"@) by {
        assert("rtx"@.len() != "rtcp"@.len());
    }
    assert("bwe"@ != "info"@) by {
        assert("bwe"@.len() != "info"@.len());
    }
    assert("bwe"@ != "ice"@) by {
        assert("bwe"@[0] != "ice"@[0]);
    }
    assert("bwe"@ != "dtls"@) by {
        assert("bwe"@.len() != "dtls"@.len());
    }
    assert("bwe"@ != "rtp"@) by {
        assert("bwe"@[0] != "rtp"@[0]);
    }
    assert("bwe"@ != "srtp"@) by {
        assert("bwe"@.len() != "srtp"@.len());
    }
    assert("bwe"@ != "rtcp"@) by {
        assert("bwe"@.len() != "rtcp"@.len());
    }
    assert("bwe"@ != "rtx"@) by {
        assert("bwe"@[0] != "rtx"@[0]);
    }
    assert("score"@ != "info"@) by {
        assert("score"@.len() != "info"@.len());
    }
    assert("score"@ != "ice"@) by {
        assert("score"@.len() != "ice"@.len());
    }
    assert("score"@ != "dtls"@) by {
        assert("score"@.len() != "dtls"@.len());
    }
    assert("score"@ != "rtp"@) by {
        assert("score"@.len() != "rtp"@.len());
    }
    assert("score"@ != "srtp"@) by {
        assert("score"@.len() != "srtp"@.len());
    }
    assert("score"@ != "rtcp"@) by {
        assert("score"@.len() != "rtcp"@.len());
    }
    assert("score"@ != "rtx"@) by {
        assert("score"@.len() != "rtx"@.len());
    }
    assert("score"@ != "bwe"@) by {
        assert("score"@.len() != "bwe"@.len());
    }
    assert("simulcast"@ != "info"@) by {
        assert("simulcast"@.len() != "info"@.len());
    }
    assert("simulcast"@ != "ice"@) by {
        assert("simulcast"@.len() != "ice"@.len());
    }
    assert("simulcast"@ != "dtls"@) by {
        assert("simulcast"@.len() != "dtls"@.len());
    }
    assert("simulcast"@ != "rtp"@) by {
        assert("simulcast"@.len() != "rtp"@.len());
    }
    assert("simulcast"@ != "srtp"@) by {
        assert("simulcast"@.len() != "srtp"@.len());
    }
    assert("simulcast"@ != "rtcp"@) by {
        assert("simulcast"@.len() != "rtcp"@.len());
    }
    assert("simulcast"@ != "rtx"@) by {
        assert("simulcast"@.len() != "rtx"@.len());
    }
    assert("simulcast"@ != "bwe"@) by {
        assert("simulcast"@.len() != "bwe"@.len());
    }
    assert("simulcast"@ != "score"@) by {
        assert("simulcast"@.len() != "score"@.len());
    }
    assert("svc"@ != "info"@) by {
        assert("svc"@.len() != "info"@.len());
    }
    assert("svc"@ != "ice"@) by {
        assert("svc"@[0] != "ice"@[0]);
    }
    assert("svc"@ != "dtls"@) by {
        assert("svc"@.len() != "dtls"@.len());
    }
    assert("svc"@ != "rtp"@) by {
        assert("svc"@[0] != "rtp"@[0]);
    }
    assert("svc"@ != "srtp"@) by {
        assert("svc"@.len() != "srtp"@.len());
    }
    assert("svc"@ != "rtcp"@) by {
        assert("svc"@.len() != "rtcp"@.len());
    }
    assert("svc"@ != "rtx"@) by {
        assert("svc"@[0] != "rtx"@[0]);
    }
    assert("svc"@ != "bwe"@) by {
        assert("svc"@[0] != "bwe"@[0]);
    }
    assert("svc"@ != "score"@) by {
        assert("svc"@.len() != "score"@.len());
    }
    assert("svc"@ != "simulcast"@) by {
        assert("svc"@.len() != "simulcast"@.len());
    }
    assert("sctp"@ != "info"@) by {
        assert("sctp"@[0] != "info"@[0]);
    }
    assert("sctp"@ != "ice"@) by {
        assert("sctp"@.len() != "ice"@.len());
    }
    assert("sctp"@ != "dtls"@) by {
        assert("sctp"@[0] != "dtls"@[0]);
    }
    assert("sctp"@ != "rtp"@) by {
        assert("sctp"@.len() != "rtp"@.len());
    }
    assert("sctp"@ != "srtp"@) by {
        assert("sctp"@[1] != "srtp"@[1]);
    }
    assert("sctp"@ != "rtcp"@) by {
        assert("sctp"@[0] != "rtcp"@[0]);
    }
    assert("sctp"@ != "rtx"@) by {
        assert("sctp"@.len() != "rtx"@.len());
    }
    assert("sctp"@ != "bwe"@) by {
        assert("sctp"@.len() != "bwe"@.len());
    }
    assert("sctp"@ != "score"@) by {
        assert("sctp"@.len() != "score"@.len());
    }
    assert("sctp"@ != "simulcast"@) by {
        assert("sctp"@.len() != "simulcast"@.len());
    }
    assert("sctp"@ != "svc"@) by {
        assert("sctp"@.len() != "svc"@.len());
    }
    assert("message"@ != "info"@) by {
        assert("message"@.len() != "info"@.len());
    }
    assert("message"@ != "ice"@) by {
        assert("message"@.len() != "ice"@.len());
    }
    assert("message"@ != "dtls"@) by {
        assert("message"@.len() != "dtls"@.len());
    }
    assert("message"@ != "rtp"@) by {
        assert("message"@.len() != "rtp"@.len());
    }
    assert("message"@ != "srtp"@) by {
        assert("message"@.len() != "srtp"@.len());
    }
    assert("message"@ != "rtcp"@) by {
        assert("message"@.len() != "rtcp"@.len());
    }
    assert("message"@ != "rtx"@) by {
        assert("message"@.len() != "rtx"@.len());
    }
    assert("message"@ != "bwe"@) by {
        assert("message"@.len() != "bwe"@.len());
    }
    assert("message"@ != "score"@) by {
        assert("message"@.len() != "score"@.len());
    }
    assert("message"@ != "simulcast"@) by {
        assert("message"@.len() != "simulcast"@.len());
    }
    assert("message"@ != "svc"@) by {
        assert("message"@.len() != "svc"@.len());
    }
    assert("message"@ != "sctp"@) by {
        assert("message"@.len() != "sctp"@.len());
    }
}

/// The log tag a lowercase name selects.
pub fn log_tag_from_lowercase(name: &String) -> (tag: WorkerLogTag)
    ensures
        tag == log_tag_named(name@),
        name@ == "info"@ ==> tag == WorkerLogTag::Info,
        name@ == "ice"@ ==> tag == WorkerLogTag::Ice,
        name@ == "dtls"@ ==> tag == WorkerLogTag::Dtls,
        name@ == "rtp"@ ==> tag == WorkerLogTag::Rtp,
        name@ == "srtp"@ ==> tag == WorkerLogTag::Srtp,
        name@ == "rtcp"@ ==> tag == WorkerLogTag::Rtcp,
        name@ == "rtx"@ ==> tag == WorkerLogTag::Rtx,
        name@ == "bwe"@ ==> tag == WorkerLogTag::Bwe,
        name@ == "score"@ ==> tag == WorkerLogTag::Score,
        name@ == "simulcast"@ ==> tag == WorkerLogTag::Simulcast,
        name@ == "svc"@ ==> tag == WorkerLogTag::Svc,
        name@ == "sctp"@ ==> tag == WorkerLogTag::Sctp,
        name@ == "message"@ ==> tag == WorkerLogTag::Message,
        name@ != "info"@ && name@ != "ice"@ && name@ != "dtls"@ && name@ != "rtp"@ &&
            name@ != "srtp"@ && name@ != "rtcp"@ && name@ != "rtx"@ && name@ != "bwe"@ &&
            name@ != "score"@ && name@ != "simulcast"@ && name@ != "svc"@ && name@ != "sctp"@ &&
            name@ != "message"@ ==> tag == WorkerLogTag::Info,
{
    proof {
        lemma_log_tag_names(name@);
    }
    if same_text(name, "info") {
        WorkerLogTag::Info
    } else if same_text(name, "ice") {
        WorkerLogTag::Ice
    } else if same_text(name, "dtls") {
        WorkerLogTag::Dtls
    } else if same_text(name, "rtp") {
        WorkerLogTag::Rtp
    } else if same_text(name, "srtp") {
        WorkerLogTag::Srtp
    } else if same_text(name, "rtcp") {
        WorkerLogTag::Rtcp
    } else if same_text(name, "rtx") {
        WorkerLogTag::Rtx
    } else if same_text(name, "bwe") {
        WorkerLogTag::Bwe
    } else if same_text(name, "score") {
        WorkerLogTag::Score
    } else if same_text(name, "simulcast") {
        WorkerLogTag::Simulcast
    } else if same_text(name, "svc") {
        WorkerLogTag::Svc
    } else if same_text(name, "sctp") {
        WorkerLogTag::Sctp
    } else if same_text(name, "message") {
        WorkerLogTag::Message
    } else {
        WorkerLogTag::Info
    }
}

/// Parses a configured log level, ignoring case; defaults to `Warn`.
pub fn parse_log_level(level: &str) -> (parsed: WorkerLogLevel)
    ensures
        parsed == log_level_named(lowercase(level@)),
        lowercase(level@) == "debug"@ ==> parsed == WorkerLogLevel::Debug,
        lowercase(level@) == "warn"@ ==> parsed == WorkerLogLevel::Warn,
        lowercase(level@) == "error"@ ==> parsed == WorkerLogLevel::Error,
        lowercase(level@) == "none"@ || lowercase(level@) == "off"@ ==> parsed
            == WorkerLogLevel::Off,
        lowercase(level@) != "debug"@ && lowercase(level@) != "warn"@ && lowercase(level@)
            != "error"@ && lowercase(level@) != "none"@ && lowercase(level@) != "off"@ ==> parsed
            == WorkerLogLevel::Warn,
{
    let lower = to_lowercase(level);
    log_level_from_lowercase(&lower)
}

/// Parses a configured log tag, ignoring case; defaults to `Info`.
pub fn parse_log_tag(tag: &str) -> (parsed: WorkerLogTag)
    ensures
        parsed == log_tag_named(lowercase(tag@)),
        lowercase(tag@) == "info"@ ==> parsed == WorkerLogTag::Info,
        lowercase(tag@) == "ice"@ ==> parsed == WorkerLogTag::Ice,
        lowercase(tag@) == "dtls"@ ==> parsed == WorkerLogTag::Dtls,
        lowercase(tag@) == "rtp"@ ==> parsed == WorkerLogTag::Rtp,
        lowercase(tag@) == "srtp"@ ==> parsed == WorkerLogTag::Srtp,
        lowercase(tag@) == "rtcp"@ ==> parsed == WorkerLogTag::Rtcp,
        lowercase(tag@) == "rtx"@ ==> parsed == WorkerLogTag::Rtx,
        lowercase(tag@) == "bwe"@ ==> parsed == WorkerLogTag::Bwe,
        lowercase(tag@) == "score"@ ==> parsed == WorkerLogTag::Score,
        lowercase(tag@) == "simulcast"@ ==> parsed == WorkerLogTag::Simulcast,
        lowercase(tag@) == "svc"@ ==> parsed == WorkerLogTag::Svc,
        lowercase(tag@) == "sctp"@ ==> parsed == WorkerLogTag::Sctp,
        lowercase(tag@) == "message"@ ==> parsed == WorkerLogTag::Message,
        lowercase(tag@) != "info"@ && lowercase(tag@) != "ice"@ && lowercase(tag@) != "dtls"@ &&
            lowercase(tag@) != "rtp"@ && lowercase(tag@) != "srtp"@ &&
            lowercase(tag@) != "rtcp"@ && lowercase(tag@) != "rtx"@ && lowercase(tag@) != "bwe"@ &&
            lowercase(tag@) != "score"@ && lowercase(tag@) != "simulcast"@ &&
            lowercase(tag@) != "svc"@ && lowercase(tag@) != "sctp"@ &&
            lowercase(tag@) != "message"@ ==> parsed == WorkerLogTag::Info,
{
    let lower = to_lowercase(tag);
    log_tag_from_lowercase(&lower)
}

/// The worker part of the server configuration.
pub struct WorkerConfig {
    pub num_workers: usize,
    pub log_level: String,
    pub log_tags: Vec<String>,
    pub rtc_min_port: u16,
    pub rtc_max_port: u16,
}

/// The settings every media worker is started with.
pub struct WorkerSettings {
    pub log_level: WorkerLogLevel,
    pub log_tags: Vec<WorkerLogTag>,
    /// ICE/DTLS/RTP ports are taken from `rtc_min_port..=rtc_max_port`.
    pub rtc_min_port: u16,
    pub rtc_max_port: u16,
}

/// Derives the worker settings from the configuration: the parsed log level,
/// each configured tag parsed in order, and the RTC port range as given.
pub fn worker_settings(config: &WorkerConfig) -> (settings: WorkerSettings)
    ensures
        settings.log_level == log_level_named(lowercase(config.log_level@)),
        lowercase(config.log_level@) == "debug"@ ==> settings.log_level == WorkerLogLevel::Debug,
        lowercase(config.log_level@) == "warn"@ ==> settings.log_level == WorkerLogLevel::Warn,
        lowercase(config.log_level@) == "error"@ ==> settings.log_level == WorkerLogLevel::Error,
        settings.log_tags@.len() == config.log_tags@.len(),
        forall|i: int|
            0 <= i < config.log_tags@.len() ==> #[trigger] settings.log_tags@[i] == log_tag_named(
                lowercase(config.log_tags@[i]@),
            ),
        settings.rtc_min_port == config.rtc_min_port,
        settings.rtc_max_port == config.rtc_max_port,
{
    let log_level = parse_log_level(config.log_level.as_str());
    let mut log_tags: Vec<WorkerLogTag> = Vec::new();
    let mut i: usize = 0;
    while i < config.log_tags.len()
        invariant
            0 <= i <= config.log_tags@.len(),
            log_tags@.len() == i,
            forall|j: int|
                0 <= j < i ==> #[trigger] log_tags@[j] == log_tag_named(lowercase(config.log_tags@[j]@)),
        decreases config.log_tags@.len() - i,
    {
        let tag = parse_log_tag(config.log_tags[i].as_str());
        log_tags.push(tag);
        i = i + 1;
    }
    WorkerSettings {
        log_level,
        log_tags,
        rtc_min_port: config.rtc_min_port,
        rtc_max_port: config.rtc_max_port,
    }
}

/// The cursor value after one more hand-out, wrapping at `usize::MAX`.
pub open spec fn advance(cursor: usize) -> usize {
    if cursor == usize::MAX {
        0
    } else {
        (cursor + 1) as usize
    }
}

/// The position of the worker handed out at a given cursor in a pool of `n`.
pub open spec fn turn_index(cursor: usize, n: nat) -> int {
    (cursor as int) % (n as int)
}

/// Round-robin fairness: starting at any cursor, `n` consecutive hand-outs
/// from a pool of `n` workers give every worker exactly once, as long as the
/// cursor does not wrap around in between.  The `i`-th of those hand-outs
/// happens at cursor `advance_by(start, i)`, since each hand-out advances the
/// cursor by one.
pub proof fn lemma_round_robin_fair(start: usize, n: nat)
    requires
        n > 0,
        start + n <= usize::MAX,
    ensures
        forall|i: nat|
            #![trigger advance_by(start, i)]
            i < n ==> advance(advance_by(start, i)) == advance_by(start, i + 1),
        forall|i: nat| #![trigger advance_by(start, i)] i < n ==> 0 <= turn_index(advance_by(start, i), n) < n,
        forall|k: int|
            0 <= k < n ==> #[trigger] turn_for(start, n, k) < n && turn_index(
                advance_by(start, turn_for(start, n, k)),
                n,
            ) == k,
        forall|i: nat, j: nat|
            #![trigger advance_by(start, i), advance_by(start, j)]
            i < j < n ==> turn_index(advance_by(start, i), n) != turn_index(advance_by(start, j), n),
{
    let m = n as int;
    let s = start as int;
    assert forall|k: int| 0 <= k < n implies #[trigger] turn_for(start, n, k) < n && turn_index(
        advance_by(start, turn_for(start, n, k)),
        n,
    ) == k by {
        let i = turn_for(start, n, k);
        vstd::arithmetic::div_mod::lemma_mod_bound(k + m - s % m, m);
        vstd::arithmetic::div_mod::lemma_mod_bound(s, m);
        vstd::arithmetic::div_mod::lemma_add_mod_noop(s, i as int, m);
        vstd::arithmetic::div_mod::lemma_mod_twice(k + m - s % m, m);
        vstd::arithmetic::div_mod::lemma_add_mod_noop(s % m, k + m - s % m, m);
        vstd::arithmetic::div_mod::lemma_mod_twice(s, m);
        vstd::arithmetic::div_mod::lemma_mod_add_multiples_vanish(k, m);
        vstd::arithmetic::div_mod::lemma_small_mod(k as nat, n);
        assert(advance_by(start, i) as int == s + i);
    }
    assert forall|i: nat, j: nat|
        #![trigger advance_by(start, i), advance_by(start, j)]
        i < j < n implies turn_index(advance_by(start, i), n) != turn_index(advance_by(start, j), n) by {
        assert(advance_by(start, i) as int == s + i);
        assert(advance_by(start, j) as int == s + j);
        vstd::arithmetic::div_mod::lemma_fundamental_div_mod(s + i, m);
        vstd::arithmetic::div_mod::lemma_fundamental_div_mod(s + j, m);
        if (s + i) % m == (s + j) % m {
            let qi = (s + i) / m;
            let qj = (s + j) / m;
            assert((j - i) == (qj - qi) * m) by (nonlinear_arith)
                requires
                    s + i == m * qi + (s + i) % m,
                    s + j == m * qj + (s + j) % m,
                    (s + i) % m == (s + j) % m,
            ;
            assert(false) by (nonlinear_arith)
                requires
                    (j - i) == (qj - qi) * m,
                    0 < j - i < m,
            ;
        }
    }
    assert forall|i: nat| #![trigger advance_by(start, i)] i < n implies 0 <= turn_index(advance_by(start, i), n) < n by {
        vstd::arithmetic::div_mod::lemma_mod_bound(s + i, m);
    }
}

/// The cursor after `k` hand-outs starting from cursor `c`, each advancing it
/// as `get_worker` does.
pub open spec fn advance_times(c: usize, k: nat) -> usize
    decreases k,
{
    if k == 0 {
        c
    } else {
        advance(advance_times(c, (k - 1) as nat))
    }
}

/// Round robin from a fresh pool: a pool of `n` workers starts at cursor 0
/// (`CustomWorkerManager::new`), so its `k`-th hand-out (counting from 0)
/// happens at cursor `k` and gives worker `k % n`, for every `k` up to
/// `usize::MAX`, where the cursor would wrap.
pub proof fn lemma_kth_hand_out(k: nat, n: nat)
    requires
        n > 0,
        k <= usize::MAX,
    ensures
        advance_times(0, k) == k,
        turn_index(advance_times(0, k), n) == (k as int) % (n as int),
    decreases k,
{
    if k > 0 {
        lemma_kth_hand_out((k - 1) as nat, n);
    }
}

/// How many hand-outs after `start` the worker at position `k` comes up.
pub open spec fn turn_for(start: usize, n: nat, k: int) -> nat {
    ((k + n - (start as int) % (n as int)) % (n as int)) as nat
}

/// The cursor after `count` hand-outs starting from `start`, without wrapping.
pub open spec fn advance_by(start: usize, count: nat) -> usize {
    (start + count) as usize
}

/// A pool of media workers handed out in turn (round-robin).
pub struct CustomWorkerManager<W> {
    workers: Vec<W>,
    current_worker: usize,
}

impl<W> CustomWorkerManager<W> {
    /// The workers of the pool, in hand-out order.
    pub closed spec fn pool(&self) -> Seq<W> {
        self.workers@
    }

    /// How many workers have been handed out (wrapping at `usize::MAX`).
    pub closed spec fn cursor(&self) -> usize {
        self.current_worker
    }

    /// A pool over the given workers, starting with the first.
    pub fn new(workers: Vec<W>) -> (manager: CustomWorkerManager<W>)
        ensures
            manager.pool() == workers@,
            manager.cursor() == 0,
    {
        CustomWorkerManager { workers, current_worker: 0 }
    }

    /// The number of workers in the pool.
    pub fn worker_count(&self) -> (n: usize)
        ensures
            n == self.pool().len(),
    {
        self.workers.len()
    }

    /// Hands out the next worker in turn.  The pool must not be empty.
    pub fn get_worker(&mut self) -> (worker: Result<&W, MediaSoupError>)
        requires
            old(self).pool().len() > 0,
        ensures
            final(self).pool() == old(self).pool(),
            final(self).cursor() == advance(old(self).cursor()),
            worker matches Ok(w) &&
                *w == old(self).pool()[turn_index(old(self).cursor(), old(self).pool().len())],
    {
        let index = self.current_worker % self.workers.len();
        self.current_worker = self.current_worker.wrapping_add(1);
        Ok(&self.workers[index])
    }
}

} // verus!
