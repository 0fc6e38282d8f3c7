use vstd::prelude::*;
use vstd::utf8::encode_utf8;
use vstd::string::StringSliceAdditionalSpecFns;
use crate::job::{BuildType, BuildV, KindV, kind_ok, strings_view};
use crate::registry::{Db, Slots};
use crate::control::{ArchOutcome, arch_list, known_archs, enqueue, enqueue_spec, query_status, status_text};
use crate::parse::{words, split_words, index_from, find_char};
use crate::text::{join, join_words};

verus! {

/// An operator's command, as the chat front end hands it over.
pub enum Command {
    /// Show the command descriptions.
    Help,
    /// Finish a login with the token that came with the start link.
    Start(String),
    /// Show the login link.
    Login,
    /// Build live images for the listed architectures (all when none is listed).
    Livekit(String),
    /// Build a release: `variants;architectures` (all architectures when no `;`).
    Release(String),
    /// Show what each architecture is doing.
    Status,
}

/// What the front end is to do in answer to a command.
pub enum Reply {
    /// Send the command descriptions.
    Help,
    /// Send the login link.
    LoginLink,
    /// Log the chat in with this token, then say how that went.
    Login(String),
    /// Send these messages, in order.
    Messages(Vec<String>),
}

/// Mathematical form of a reply.
pub enum ReplyV {
    Help,
    LoginLink,
    Login(Seq<char>),
    Messages(Seq<Seq<char>>),
}

impl View for Reply {
    type V = ReplyV;

    open spec fn view(&self) -> ReplyV {
        match self {
            Reply::Help => ReplyV::Help,
            Reply::LoginLink => ReplyV::LoginLink,
            Reply::Login(t) => ReplyV::Login(t@),
            Reply::Messages(v) => ReplyV::Messages(strings_view(v@)),
        }
    }
}

/// Architectures named by the arguments of a live-image command.
pub open spec fn livekit_targets_spec(args: Seq<char>) -> Seq<Seq<char>> {
    if args.len() == 0 {
        known_archs()
    } else {
        words(args)
    }
}

/// Variants and architectures named by the arguments of a release command.
pub open spec fn release_targets_spec(args: Seq<char>) -> (Seq<Seq<char>>, Seq<Seq<char>>) {
    match index_from(args, ';', 0) {
        Some(k) => (words(args.subrange(0, k)), words(args.subrange(k + 1, args.len() as int))),
        None => (words(args), known_archs()),
    }
}

/// The architectures of a live-image command: the listed ones, or all.
pub fn livekit_targets(args: &str) -> (r: Vec<String>)
    ensures
        strings_view(r@) == livekit_targets_spec(args@),
{
    if args.is_empty() {
        arch_list()
    } else {
        split_words(args)
    }
}

/// The variants and architectures of a release command.
pub fn release_targets(args: &str) -> (r: (Vec<String>, Vec<String>))
    ensures
        (strings_view(r.0@), strings_view(r.1@)) == release_targets_spec(args@),
{
    match find_char(args, ';') {
        Some(k) => {
            let n = args.unicode_len();
            let before = args.substring_char(0, k);
            let after = args.substring_char(k + 1, n);
            (split_words(before), split_words(after))
        },
        None => (split_words(args), arch_list()),
    }
}

/// What the operator is told of one architecture of an enqueue request;
/// `created` ends the message for a created record.
pub open spec fn outcome_message(a: Seq<char>, o: ArchOutcome, created: Seq<char>) -> Seq<char> {
    match o {
        ArchOutcome::Unknown => "Unknown arch: "@ + a,
        ArchOutcome::Busy => "Another build task is running."@,
        ArchOutcome::Created => "Building "@ + a + created,
    }
}

/// The messages for the outcomes of an enqueue request, one each.
pub open spec fn outcome_messages(archs: Seq<Seq<char>>, outs: Seq<ArchOutcome>, created: Seq<char>) -> Seq<Seq<char>> {
    Seq::new(outs.len(), |i: int| outcome_message(archs[i], outs[i], created))
}

/// Ending of the message for a created record of the given kind.
pub open spec fn created_suffix(k: KindV) -> Seq<char> {
    match k {
        KindV::Livekit => " for livekit"@,
        KindV::Release(v) => " for release ("@ + join_words(v) + ")"@,
    }
}

/// Enqueueing a kind for some architectures, and the messages on it.
pub open spec fn enqueue_reply(m: Slots, archs: Seq<Seq<char>>, k: KindV, id: i64) -> (Slots, ReplyV) {
    let (m2, outs) = enqueue_spec(m, archs, k, id);
    (m2, ReplyV::Messages(outcome_messages(archs, outs, created_suffix(k))))
}

/// The answer to a release command that names no variant.
pub open spec fn no_variants_text() -> Seq<char> {
    "A release needs at least one variant: /release variants;[archs]"@
}

/// Every release record held names at least one variant.
pub open spec fn releases_named(m: Slots) -> bool {
    forall|a: Seq<char>| #[trigger] m.contains_key(a) ==> kind_ok(m[a].kind)
}

/// How a command is answered: `id` is the chat it came from, and
/// `logged_in` whether that chat may start live-image builds.
pub open spec fn answer_spec(m: Slots, cmd: Command, id: i64, logged_in: bool) -> (Slots, ReplyV) {
    match cmd {
        Command::Help => (m, ReplyV::Help),
        Command::Login => (m, ReplyV::LoginLink),
        Command::Start(t) => if encode_utf8(t@).len() as usize != 20 {
            (m, ReplyV::Help)
        } else {
            (m, ReplyV::Login(t@))
        },
        Command::Livekit(args) => if !logged_in {
            (m, ReplyV::Messages(Seq::empty()))
        } else {
            enqueue_reply(m, livekit_targets_spec(args@), KindV::Livekit, id)
        },
        Command::Release(args) => {
            let (variants, archs) = release_targets_spec(args@);
            if variants.len() == 0 {
                (m, ReplyV::Messages(seq![no_variants_text()]))
            } else {
                enqueue_reply(m, archs, KindV::Release(variants), id)
            }
        },
        Command::Status => (m, ReplyV::Messages(seq![status_text(m, known_archs())])),
    }
}

fn outcome_messages_exec(archs: &Vec<String>, outs: &Vec<ArchOutcome>, created: &str) -> (r: Vec<String>)
    requires
        outs@.len() <= archs@.len(),
    ensures
        strings_view(r@) == outcome_messages(strings_view(archs@), outs@, created@),
{
    let ghost w = strings_view(archs@);
    let mut r: Vec<String> = Vec::new();
    let mut i: usize = 0;
    while i < outs.len()
        invariant
            w == strings_view(archs@),
            outs@.len() <= archs@.len(),
            i <= outs@.len(),
            r@.len() == i,
            forall|j: int| 0 <= j < i ==> #[trigger] r@[j]@ == outcome_message(w[j], outs@[j], created@),
        decreases outs.len() - i,
    {
        let m = match outs[i] {
            ArchOutcome::Unknown => {
                let mut s = String::from_str("Unknown arch: ");
                s.append(archs[i].as_str());
                s
            },
            ArchOutcome::Busy => String::from_str("Another build task is running."),
            ArchOutcome::Created => {
                let mut s = String::from_str("Building ");
                s.append(archs[i].as_str());
                s.append(created);
                s
            },
        };
        r.push(m);
        i = i + 1;
    }
    proof {
        assert(strings_view(r@) =~= outcome_messages(w, outs@, created@));
    }
    r
}

/// Answers an operator's command: enqueues builds and reports on them, or
/// says what the front end is to do.
pub fn answer(db: &mut Db, cmd: &Command, id: i64, logged_in: bool) -> (r: Reply)
    requires
        old(db).wf(),
    ensures
        final(db).wf(),
        (final(db)@, r@) == answer_spec(old(db)@, *cmd, id, logged_in),
        releases_named(old(db)@) ==> releases_named(final(db)@),
{
    match cmd {
        Command::Help => Reply::Help,
        Command::Login => Reply::LoginLink,
        Command::Start(t) => {
            let ts = t.as_str();
            proof {
                assert(ts.spec_bytes() == encode_utf8(t@));
            }
            if ts.len() != 20 {
                Reply::Help
            } else {
                Reply::Login(t.clone())
            }
        },
        Command::Livekit(args) => {
            if !logged_in {
                let none: Vec<String> = Vec::new();
                proof {
                    assert(strings_view(none@) =~= Seq::<Seq<char>>::empty());
                }
                return Reply::Messages(none);
            }
            let archs = livekit_targets(args.as_str());
            let outs = enqueue(db, &archs, &BuildType::Livekit, id);
            proof {
                assert(outs@.len() <= archs@.len()) by {
                    lemma_enqueue_outcomes_len(old(db)@, strings_view(archs@), KindV::Livekit, id);
                }
            }
            let msgs = outcome_messages_exec(&archs, &outs, " for livekit");
            proof {
                assert((final(db)@, Reply::Messages(msgs)@) == answer_spec(old(db)@, *cmd, id, logged_in));
                if releases_named(old(db)@) {
                    lemma_enqueue_keeps_releases_named(old(db)@, strings_view(archs@), KindV::Livekit, id);
                }
            }
            Reply::Messages(msgs)
        },
        Command::Release(args) => {
            let (variants, archs) = release_targets(args.as_str());
            if variants.len() == 0 {
                let mut msgs: Vec<String> = Vec::new();
                msgs.push(String::from_str("A release needs at least one variant: /release variants;[archs]"));
                proof {
                    assert(strings_view(msgs@) =~= seq![no_variants_text()]);
                }
                return Reply::Messages(msgs);
            }
            let mut suffix = String::from_str(" for release (");
            let j = join(&variants);
            suffix.append(j.as_str());
            suffix.append(")");
            let kind = BuildType::Release(variants);
            let outs = enqueue(db, &archs, &kind, id);
            proof {
                assert(outs@.len() <= archs@.len()) by {
                    lemma_enqueue_outcomes_len(old(db)@, strings_view(archs@), kind@, id);
                }
            }
            let msgs = outcome_messages_exec(&archs, &outs, suffix.as_str());
            proof {
                assert(suffix@ == created_suffix(kind@));
                if releases_named(old(db)@) {
                    lemma_enqueue_keeps_releases_named(old(db)@, strings_view(archs@), kind@, id);
                }
                assert((final(db)@, Reply::Messages(msgs)@) == answer_spec(old(db)@, *cmd, id, logged_in));
            }
            Reply::Messages(msgs)
        },
        Command::Status => {
            let text = query_status(db);
            let mut msgs: Vec<String> = Vec::new();
            msgs.push(text);
            proof {
                assert(strings_view(msgs@) =~= seq![status_text(db@, known_archs())]);
                assert((db@, Reply::Messages(msgs)@) == answer_spec(old(db)@, *cmd, id, logged_in));
            }
            Reply::Messages(msgs)
        },
    }
}

/// An enqueue request has at most one outcome per architecture it names.
pub proof fn lemma_enqueue_outcomes_len(m: Slots, archs: Seq<Seq<char>>, k: KindV, id: i64)
    ensures
        enqueue_spec(m, archs, k, id).1.len() <= archs.len(),
    decreases archs.len(),
{
    if archs.len() > 0 {
        let a = archs[0];
        lemma_enqueue_outcomes_len(m, archs.drop_first(), k, id);
        if known_archs().contains(a) && !m.contains_key(a) {
            lemma_enqueue_outcomes_len(m.insert(a, crate::job::BuildV { id, arch: a, kind: k }), archs.drop_first(), k, id);
        }
    }
}

/// Enqueueing a well-formed kind keeps every held release record naming at
/// least one variant.
pub proof fn lemma_enqueue_keeps_releases_named(m: Slots, archs: Seq<Seq<char>>, k: KindV, id: i64)
    requires
        releases_named(m),
        kind_ok(k),
    ensures
        releases_named(enqueue_spec(m, archs, k, id).0),
    decreases archs.len(),
{
    if archs.len() > 0 {
        let a = archs[0];
        lemma_enqueue_keeps_releases_named(m, archs.drop_first(), k, id);
        if known_archs().contains(a) && !m.contains_key(a) {
            let m1 = m.insert(a, BuildV { id, arch: a, kind: k });
            assert(releases_named(m1));
            lemma_enqueue_keeps_releases_named(m1, archs.drop_first(), k, id);
        }
    }
}

} // verus!
