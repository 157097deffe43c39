//! The dynamic pad linker: dispatch of a newly appeared output pad to one of
//! the pre-built downstream sinks, decided by the pad's content type.
//!
//! The engine performs the link itself; this module owns the policy. A
//! notification is handled in two verified steps: `LinkRegistry::decide_link`
//! says whether a link should be attempted for the parsed category, and
//! `LinkRegistry::record_link_result` folds the engine's answer back into
//! the registry. The duplicate guard is per category: a category already
//! marked linked is never attempted again.

use vstd::prelude::*;

verus! {

/// A content category the registry knows, parsed from the capability
/// descriptor's structure name. The closed `Unsupported` arm keeps the
/// dispatch exhaustive.
#[derive(Clone, Copy, PartialEq, Eq, Structural, Debug)]
pub enum MediaCategory {
    Audio,
    Video,
    Unsupported,
}

/// What the caller should do with a pad-added notification.
#[derive(Clone, Copy, PartialEq, Eq, Structural, Debug)]
pub enum LinkDecision {
    /// The content type matches no known category: log and ignore.
    NotSupported,
    /// The category's sink is already linked: ignore the duplicate.
    AlreadyLinked,
    /// Attempt the link to the category's sink, then record the outcome.
    Attempt,
}

/// One pre-declared downstream sink per content category, each with its
/// linked flag. Entries are created when the pipeline graph is assembled and
/// never removed during a session.
#[derive(Clone, Copy, PartialEq, Eq, Structural, Debug)]
pub struct LinkRegistry {
    pub audio_linked: bool,
    pub video_linked: bool,
}

/// The bytes of `"audio/x-raw"`.
pub open spec fn audio_raw_prefix() -> Seq<u8> {
    seq![0x61u8, 0x75u8, 0x64u8, 0x69u8, 0x6fu8, 0x2fu8, 0x78u8, 0x2du8, 0x72u8, 0x61u8, 0x77u8]
}

/// The bytes of `"video/x-raw"`.
pub open spec fn video_raw_prefix() -> Seq<u8> {
    seq![0x76u8, 0x69u8, 0x64u8, 0x65u8, 0x6fu8, 0x2fu8, 0x78u8, 0x2du8, 0x72u8, 0x61u8, 0x77u8]
}

/// Does `p` stand at the front of `s`?
pub open spec fn is_prefix_of(p: Seq<u8>, s: Seq<u8>) -> bool {
    p.len() <= s.len() && s.subrange(0, p.len() as int) == p
}

/// The category of a capability structure name, by its content-type prefix.
/// The two known prefixes differ in their first byte, so they never overlap.
pub open spec fn spec_category_of(name: Seq<u8>) -> MediaCategory {
    if is_prefix_of(audio_raw_prefix(), name) {
        MediaCategory::Audio
    } else if is_prefix_of(video_raw_prefix(), name) {
        MediaCategory::Video
    } else {
        MediaCategory::Unsupported
    }
}

/// Is the category's registry entry marked linked? An unsupported category
/// has no entry and is never linked.
pub open spec fn spec_linked(reg: LinkRegistry, c: MediaCategory) -> bool {
    match c {
        MediaCategory::Audio => reg.audio_linked,
        MediaCategory::Video => reg.video_linked,
        MediaCategory::Unsupported => false,
    }
}

/// The dispatch policy: unknown categories are refused, linked categories
/// are duplicates, anything else is attempted.
pub open spec fn spec_decision(reg: LinkRegistry, c: MediaCategory) -> LinkDecision {
    match c {
        MediaCategory::Unsupported => LinkDecision::NotSupported,
        _ => if spec_linked(reg, c) {
            LinkDecision::AlreadyLinked
        } else {
            LinkDecision::Attempt
        },
    }
}

/// The registry after the engine's answer to a link attempt: only a
/// successful link of a known category marks its entry, and nothing else
/// moves.
pub open spec fn spec_record(reg: LinkRegistry, c: MediaCategory, success: bool) -> LinkRegistry {
    if success {
        match c {
            MediaCategory::Audio => LinkRegistry { audio_linked: true, ..reg },
            MediaCategory::Video => LinkRegistry { video_linked: true, ..reg },
            MediaCategory::Unsupported => reg,
        }
    } else {
        reg
    }
}

/// The registry after one whole pad-added notification for category `c`,
/// where `link_success` is the engine's answer in case a link was attempted.
/// Only an `Attempt` decision reaches the engine at all.
pub open spec fn after_notification(
    reg: LinkRegistry,
    c: MediaCategory,
    link_success: bool,
) -> LinkRegistry {
    if spec_decision(reg, c) is Attempt {
        spec_record(reg, c, link_success)
    } else {
        reg
    }
}

/// Does `prefix` stand at the front of `name`?
fn starts_with(name: &[u8], prefix: &[u8]) -> (r: bool)
    ensures
        r == is_prefix_of(prefix@, name@),
{
    if prefix.len() > name.len() {
        return false;
    }
    let n = prefix.len();
    let mut i: usize = 0;
    while i < n
        invariant
            n == prefix@.len() <= name@.len(),
            0 <= i <= n,
            forall|k: int| 0 <= k < i ==> name@[k] == prefix@[k],
        decreases n - i,
    {
        if name[i] != prefix[i] {
            assert(name@.subrange(0, n as int)[i as int] != prefix@[i as int]);
            return false;
        }
        i += 1;
    }
    assert(name@.subrange(0, n as int) =~= prefix@);
    true
}

/// Parse a capability structure name into its content category.
pub fn category_of(name: &[u8]) -> (c: MediaCategory)
    ensures
        c == spec_category_of(name@),
{
    let audio: [u8; 11] = [0x61, 0x75, 0x64, 0x69, 0x6f, 0x2f, 0x78, 0x2d, 0x72, 0x61, 0x77];
    let video: [u8; 11] = [0x76, 0x69, 0x64, 0x65, 0x6f, 0x2f, 0x78, 0x2d, 0x72, 0x61, 0x77];
    proof {
        assert(audio@ =~= audio_raw_prefix());
        assert(video@ =~= video_raw_prefix());
    }
    if starts_with(name, audio.as_slice()) {
        MediaCategory::Audio
    } else if starts_with(name, video.as_slice()) {
        MediaCategory::Video
    } else {
        MediaCategory::Unsupported
    }
}

impl LinkRegistry {
    /// A fresh registry: both sinks declared, neither linked yet.
    pub fn new() -> (reg: LinkRegistry)
        ensures
            reg == (LinkRegistry { audio_linked: false, video_linked: false }),
    {
        LinkRegistry { audio_linked: false, video_linked: false }
    }

    /// Decide what to do with a pad-added notification for category `c`.
    /// Reads the registry only; nothing is mutated by a decision.
    pub fn decide_link(&self, c: MediaCategory) -> (d: LinkDecision)
        ensures
            d == spec_decision(*self, c),
    {
        match c {
            MediaCategory::Unsupported => LinkDecision::NotSupported,
            MediaCategory::Audio => {
                if self.audio_linked {
                    LinkDecision::AlreadyLinked
                } else {
                    LinkDecision::Attempt
                }
            },
            MediaCategory::Video => {
                if self.video_linked {
                    LinkDecision::AlreadyLinked
                } else {
                    LinkDecision::Attempt
                }
            },
        }
    }

    /// Fold the outcome of an attempted link back into the registry. Only a
    /// success marks the category linked; a failed attempt leaves its entry
    /// untouched so a later pad may still be linked.
    pub fn record_link_result(&mut self, c: MediaCategory, success: bool)
        ensures
            *final(self) == spec_record(*old(self), c, success),
    {
        if success {
            match c {
                MediaCategory::Audio => {
                    self.audio_linked = true;
                },
                MediaCategory::Video => {
                    self.video_linked = true;
                },
                MediaCategory::Unsupported => {},
            }
        }
    }
}

/// A duplicate notification is a no-op: once a category's entry is marked
/// linked, the decision for that category is `AlreadyLinked`, so no further
/// link attempt is made and the registry cannot change.
pub proof fn duplicate_notification_is_noop(
    reg: LinkRegistry,
    c: MediaCategory,
    link_success: bool,
)
    requires
        spec_linked(reg, c),
    ensures
        spec_decision(reg, c) == LinkDecision::AlreadyLinked,
        after_notification(reg, c, link_success) == reg,
{
}

/// An unsupported content category never mutates the registry, whatever the
/// engine would have answered.
pub proof fn unsupported_category_never_mutates(
    reg: LinkRegistry,
    link_success: bool,
)
    ensures
        spec_decision(reg, MediaCategory::Unsupported) == LinkDecision::NotSupported,
        after_notification(reg, MediaCategory::Unsupported, link_success) == reg,
        spec_record(reg, MediaCategory::Unsupported, link_success) == reg,
{
}

} // verus!
