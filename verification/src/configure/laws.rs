//! Laws of a configuration run, proved of its state machine.

use crate::configure::command::{CommandView, ConfigureErrorView, ErrorView, ReplyView};
use crate::configure::model::{
    candidates_of, close, connect, descriptors, discover, normalize, persist, set_up_mailbox, step,
    with_candidates, RunView, Stage,
};
use crate::configure::server_params::{
    expand, lemma_expand_keeps_protocol, lemma_expand_of_complete, ServerParamsView,
};
use crate::configure::source::{offline_autoconfig, sources};
use crate::configure::{admit_run, advance_run};
use crate::provider::{Protocol, ProviderInfoView};
use vstd::prelude::*;

verus! {

/// The state of a run after a sequence of replies.
pub open spec fn state_after(s: RunView, replies: Seq<ReplyView>) -> RunView
    decreases replies.len(),
{
    if replies.len() == 0 {
        s
    } else {
        state_after(step(s, replies[0]).0, replies.drop_first())
    }
}

/// The commands that a run hands out in the course of a sequence of
/// replies, one for each reply.
pub open spec fn commands(s: RunView, replies: Seq<ReplyView>) -> Seq<CommandView>
    decreases replies.len(),
{
    if replies.len() == 0 {
        Seq::empty()
    } else {
        seq![step(s, replies[0]).1] + commands(step(s, replies[0]).0, replies.drop_first())
    }
}

/// The progress that a run reports in the course of a sequence of replies.
pub open spec fn reports(s: RunView, replies: Seq<ReplyView>) -> Seq<u16>
    decreases replies.len(),
{
    if replies.len() == 0 {
        Seq::empty()
    } else {
        let (next, command) = step(s, replies[0]);
        let later = reports(next, replies.drop_first());
        match command {
            CommandView::EmitProgress(value) => seq![value] + later,
            _ => later,
        }
    }
}

/// What a step may do to the state and the progress.
///
/// A reachable state stays reachable. A report is at most 1000; it is 0
/// only where the run goes on to hand out its result, and else it is not
/// below the report before it. A step without a report leaves the progress
/// as it was.
pub open spec fn orderly(s: RunView, next: (RunView, CommandView)) -> bool {
    &&& next.0.wf()
    &&& next.1 matches CommandView::EmitProgress(value) ==> {
        &&& value <= 1000
        &&& next.0.progress == value
        &&& value == 0 ==> next.0.is_closing()
        &&& value != 0 ==> s.progress <= value
    }
    &&& !(next.1 is EmitProgress) ==> next.0.progress == s.progress
}

proof fn lemma_normalize_orderly(s: RunView, reply: ReplyView)
    requires
        s.wf(),
        distance(s.stage) > distance(Stage::AutoconfigBegun),
    ensures
        orderly(s, normalize(s, reply)),
{
}

proof fn lemma_discover_orderly(s: RunView, reply: ReplyView)
    requires
        s.wf(),
        distance(Stage::CandidatesFinal) <= distance(s.stage) <= distance(Stage::AutoconfigBegun),
    ensures
        orderly(s, discover(s, reply)),
{
}

proof fn lemma_connect_orderly(s: RunView, reply: ReplyView)
    requires
        s.wf(),
        distance(Stage::SmtpDisconnecting) <= distance(s.stage) <= distance(Stage::ImapBegun),
    ensures
        orderly(s, connect(s, reply)),
{
}

proof fn lemma_set_up_mailbox_orderly(s: RunView, reply: ReplyView)
    requires
        s.wf(),
        distance(Stage::SelectingInbox) <= distance(s.stage) <= distance(Stage::FoldersBegun),
    ensures
        orderly(s, set_up_mailbox(s, reply)),
{
}

proof fn lemma_persist_orderly(s: RunView, reply: ReplyView)
    requires
        s.wf(),
        distance(Stage::KeyEnsured) <= distance(s.stage) <= distance(Stage::InboxVerified),
    ensures
        orderly(s, persist(s, reply)),
{
}

proof fn lemma_close_orderly(s: RunView, reply: ReplyView)
    requires
        s.wf(),
        distance(Stage::SettingNotice) <= distance(s.stage) <= distance(Stage::WrapupLookup),
    ensures
        orderly(s, close(s, reply)),
{
}

/// Every step is orderly, and a run that has reported its result only
/// hands the result out.
pub proof fn lemma_step(s: RunView, reply: ReplyView)
    requires
        s.wf(),
    ensures
        orderly(s, step(s, reply)),
        s.is_closing() ==> step(s, reply).0.is_closing() && step(s, reply).1 is Finish,
{
    if !s.is_closing() && !(reply is Cancelled) {
        let d = distance(s.stage);
        if d > distance(Stage::AutoconfigBegun) {
            lemma_normalize_orderly(s, reply);
        } else if d >= distance(Stage::CandidatesFinal) {
            lemma_discover_orderly(s, reply);
        } else if d >= distance(Stage::SmtpDisconnecting) {
            lemma_connect_orderly(s, reply);
        } else if d >= distance(Stage::SelectingInbox) {
            lemma_set_up_mailbox_orderly(s, reply);
        } else if d >= distance(Stage::KeyEnsured) {
            lemma_persist_orderly(s, reply);
        } else {
            lemma_close_orderly(s, reply);
        }
    }
}

/// The progress that a run reports when it enters a stage, for the stages
/// that are entered with a report: the table of checkpoints.
pub open spec fn checkpoint(s: RunView) -> Option<int> {
    match s.stage {
        Stage::Started => Some(1),
        Stage::Oauth2Begun => Some(10),
        Stage::Oauth2Done => Some(20),
        Stage::AutoconfigBegun => Some(200),
        Stage::Fetched => Some(300 + 10 * s.index as int),
        Stage::CandidatesFinal => Some(500),
        Stage::ImapBegun => Some(600),
        Stage::SmtpBegun => Some(750),
        Stage::FoldersBegun => Some(900),
        Stage::InboxVerified => Some(910),
        Stage::Persisted => Some(920),
        Stage::KeyEnsured => Some(940),
        Stage::Succeeding => Some(1000),
        Stage::Failing | Stage::Cancelling => Some(0),
        _ => None,
    }
}

/// Whether a step reports exactly the checkpoint of the stage that it
/// enters, and reports nothing where that stage has none.
pub open spec fn on_the_table(next: (RunView, CommandView)) -> bool {
    match next.1 {
        CommandView::EmitProgress(value) => checkpoint(next.0) == Some(value as int),
        _ => checkpoint(next.0) is None,
    }
}

proof fn lemma_normalize_on_the_table(s: RunView, reply: ReplyView)
    requires
        s.wf(),
        distance(s.stage) > distance(Stage::AutoconfigBegun),
    ensures
        on_the_table(normalize(s, reply)),
{
}

proof fn lemma_discover_on_the_table(s: RunView, reply: ReplyView)
    requires
        s.wf(),
        distance(Stage::CandidatesFinal) <= distance(s.stage) <= distance(Stage::AutoconfigBegun),
    ensures
        on_the_table(discover(s, reply)),
{
}

proof fn lemma_connect_on_the_table(s: RunView, reply: ReplyView)
    requires
        s.wf(),
        distance(Stage::SmtpDisconnecting) <= distance(s.stage) <= distance(Stage::ImapBegun),
    ensures
        on_the_table(connect(s, reply)),
{
}

proof fn lemma_set_up_mailbox_on_the_table(s: RunView, reply: ReplyView)
    requires
        s.wf(),
        distance(Stage::SelectingInbox) <= distance(s.stage) <= distance(Stage::FoldersBegun),
    ensures
        on_the_table(set_up_mailbox(s, reply)),
{
}

proof fn lemma_persist_on_the_table(s: RunView, reply: ReplyView)
    requires
        s.wf(),
        distance(Stage::KeyEnsured) <= distance(s.stage) <= distance(Stage::InboxVerified),
    ensures
        on_the_table(persist(s, reply)),
{
}

proof fn lemma_close_on_the_table(s: RunView, reply: ReplyView)
    requires
        s.wf(),
        distance(Stage::SettingNotice) <= distance(s.stage) <= distance(Stage::WrapupLookup),
    ensures
        on_the_table(close(s, reply)),
{
}

/// Every report is a checkpoint: a run that is under way reports progress
/// exactly when it enters a stage of the table, and then the value that
/// the table gives for that stage.
pub proof fn lemma_reports_are_checkpoints(s: RunView, reply: ReplyView)
    requires
        s.wf(),
        !s.is_closing(),
    ensures
        on_the_table(step(s, reply)),
{
    if !(reply is Cancelled) {
        let d = distance(s.stage);
        if d > distance(Stage::AutoconfigBegun) {
            lemma_normalize_on_the_table(s, reply);
        } else if d >= distance(Stage::CandidatesFinal) {
            lemma_discover_on_the_table(s, reply);
        } else if d >= distance(Stage::SmtpDisconnecting) {
            lemma_connect_on_the_table(s, reply);
        } else if d >= distance(Stage::SelectingInbox) {
            lemma_set_up_mailbox_on_the_table(s, reply);
        } else if d >= distance(Stage::KeyEnsured) {
            lemma_persist_on_the_table(s, reply);
        } else {
            lemma_close_on_the_table(s, reply);
        }
    }
}

/// A run that has reported its result as progress reports nothing more.
pub proof fn lemma_closing_is_silent(s: RunView, replies: Seq<ReplyView>)
    requires
        s.wf(),
        s.is_closing(),
    ensures
        reports(s, replies).len() == 0,
    decreases replies.len(),
{
    if replies.len() > 0 {
        lemma_step(s, replies[0]);
        lemma_closing_is_silent(step(s, replies[0]).0, replies.drop_first());
    }
}

/// The reports of a run never fall, but for a 0 at the very end.
///
/// Whatever the replies, each report is at most 1000 and not below the
/// progress before the replies, every report is followed only by reports
/// that are not below it, and all this but for a 0, which can only be the
/// last report.
pub proof fn lemma_progress_never_falls(s: RunView, replies: Seq<ReplyView>)
    requires
        s.wf(),
    ensures
        forall|k: int|
            0 <= k < reports(s, replies).len() ==> {
                let value = #[trigger] reports(s, replies)[k];
                &&& value <= 1000
                &&& value == 0 ==> k == reports(s, replies).len() - 1
                &&& value != 0 ==> s.progress <= value
            },
        forall|i: int, j: int|
            0 <= i < j < reports(s, replies).len() && reports(s, replies)[j] != 0 ==> reports(
                s,
                replies,
            )[i] <= reports(s, replies)[j],
    decreases replies.len(),
{
    if replies.len() > 0 {
        let (next, command) = step(s, replies[0]);
        let later = reports(next, replies.drop_first());
        lemma_step(s, replies[0]);
        lemma_progress_never_falls(next, replies.drop_first());
        if let CommandView::EmitProgress(value) = command {
            if value == 0 {
                lemma_closing_is_silent(next, replies.drop_first());
            }
            assert forall|k: int| 0 <= k < reports(s, replies).len() implies {
                let value = #[trigger] reports(s, replies)[k];
                &&& value <= 1000
                &&& value == 0 ==> k == reports(s, replies).len() - 1
                &&& value != 0 ==> s.progress <= value
            } by {
                if k > 0 {
                    assert(reports(s, replies)[k] == later[k - 1]);
                }
            }
            assert forall|i: int, j: int|
                0 <= i < j < reports(s, replies).len() && reports(s, replies)[j]
                    != 0 implies reports(s, replies)[i] <= reports(s, replies)[j] by {
                assert(reports(s, replies)[j] == later[j - 1]);
                if i > 0 {
                    assert(reports(s, replies)[i] == later[i - 1]);
                }
            }
        }
    }
}

/// How far a run is from its end, by stage: every step leads to a stage
/// that is not farther, and stages of the same distance form one loop.
pub open spec fn distance(stage: Stage) -> nat {
    match stage {
        Stage::Finished => 0,
        Stage::Succeeding | Stage::Failing | Stage::Cancelling => 1,
        Stage::SettingNotice => 2,
        Stage::AddingHint => 3,
        Stage::CheckingDefault | Stage::SettingDefault => 4,
        Stage::WrapupLookup => 5,
        Stage::KeyEnsured => 6,
        Stage::EnsuringKey => 7,
        Stage::Persisted => 8,
        Stage::MarkingConfigured => 9,
        Stage::Saving => 10,
        Stage::InboxVerified => 11,
        Stage::SelectingInbox => 12,
        Stage::ConfiguringFolders => 13,
        Stage::AskingMvboxMove => 14,
        Stage::AskingMvboxWatch => 15,
        Stage::FoldersBegun => 16,
        Stage::SmtpDisconnecting => 17,
        Stage::TryingSmtp => 18,
        Stage::SmtpBegun => 19,
        Stage::TryingImap => 20,
        Stage::ImapBegun => 21,
        Stage::CandidatesFinal => 22,
        Stage::Fetching | Stage::Fetched => 23,
        Stage::OfflineLookup => 24,
        Stage::AutoconfigBegun => 25,
        Stage::Oauth2Done => 26,
        Stage::PersistingAddress => 27,
        Stage::ResolvingAddress => 28,
        Stage::Oauth2Begun => 29,
        Stage::Started => 30,
        Stage::LoadingParam => 31,
        Stage::ClearingNotice => 32,
    }
}

/// How much of the loop of its stage a run has before it: the sources, the
/// candidates or the defaults that are left.
pub open spec fn pending(s: RunView) -> nat {
    match s.stage {
        Stage::Fetching => (2 * (5 - s.index) + 1) as nat,
        Stage::Fetched => (2 * (5 - s.index)) as nat,
        Stage::TryingImap => (s.imap.len() - s.imap_cursor) as nat,
        Stage::TryingSmtp => (s.smtp.len() - s.smtp_cursor) as nat,
        Stage::CheckingDefault => (2 * (crate::configure::model::defaults(s).len() - s.index)
            + 1) as nat,
        Stage::SettingDefault => (2 * (crate::configure::model::defaults(s).len()
            - s.index)) as nat,
        _ => 0,
    }
}

/// Every step brings a run nearer to its end: to a stage that is nearer,
/// or on in the loop of its stage.
pub proof fn lemma_step_approaches_end(s: RunView, reply: ReplyView)
    requires
        s.wf(),
        s.stage != Stage::Finished,
    ensures
        distance(step(s, reply).0.stage) < distance(s.stage) || (distance(step(s, reply).0.stage)
            == distance(s.stage) && pending(step(s, reply).0) < pending(s)),
{
}

/// The state of a run after the first `n` replies of an unending sequence
/// of replies.
pub open spec fn state_at(s: RunView, replies: spec_fn(nat) -> ReplyView, n: nat) -> RunView
    decreases n,
{
    if n == 0 {
        s
    } else {
        state_at(step(s, replies(0)).0, |i: nat| replies(i + 1), (n - 1) as nat)
    }
}

/// Every run ends: whatever the replies are, and however many candidates
/// fail, after finitely many of them the run has handed out its result.
pub proof fn lemma_run_ends(s: RunView, replies: spec_fn(nat) -> ReplyView) -> (n: nat)
    requires
        s.wf(),
    ensures
        state_at(s, replies, n).stage == Stage::Finished,
    decreases distance(s.stage), pending(s),
{
    if s.stage == Stage::Finished {
        0
    } else {
        lemma_step(s, replies(0));
        lemma_step_approaches_end(s, replies(0));
        let n = lemma_run_ends(step(s, replies(0)).0, |i: nat| replies(i + 1));
        n + 1
    }
}

/// The result is handed out only after it has been reported as progress:
/// a failure after 0, a success after 1000 or, for a cancelled run, after 0.
pub proof fn lemma_result_follows_report(s: RunView, reply: ReplyView)
    requires
        s.wf(),
        s.stage != Stage::Finished,
        step(s, reply).1 is Finish,
    ensures
        step(s, reply).0.stage == Stage::Finished,
        step(s, reply).1 == CommandView::Finish(s.failure),
        s.failure is Some ==> s.stage == Stage::Failing && s.progress == 0,
        s.failure is None ==> (s.stage == Stage::Succeeding && s.progress == 1000) || (s.stage
            == Stage::Cancelling && s.progress == 0),
{
}

/// A run that is past discovery asks no online source any more.
pub proof fn lemma_no_fetch_after_discovery(s: RunView, replies: Seq<ReplyView>)
    requires
        s.wf(),
        distance(s.stage) <= distance(Stage::CandidatesFinal),
    ensures
        forall|k: int|
            0 <= k < commands(s, replies).len() ==> !(#[trigger] commands(s, replies)[k] is Fetch),
    decreases replies.len(),
{
    if replies.len() > 0 {
        let (next, command) = step(s, replies[0]);
        lemma_step(s, replies[0]);
        if s.stage != Stage::Finished {
            lemma_step_approaches_end(s, replies[0]);
        }
        lemma_no_fetch_after_discovery(next, replies.drop_first());
        let later = commands(next, replies.drop_first());
        assert forall|k: int| 0 <= k < commands(s, replies).len() implies !(#[trigger] commands(
            s,
            replies,
        )[k] is Fetch) by {
            if k > 0 {
                assert(commands(s, replies)[k] == later[k - 1]);
            }
        }
    }
}

/// Where the offline knowledge base knows the servers of an address, they
/// are the descriptors of the run, and no online source is asked: neither
/// in reply to the record nor at any time after it.
pub proof fn lemma_offline_record_settles(
    s: RunView,
    info: Option<ProviderInfoView>,
    replies: Seq<ReplyView>,
)
    requires
        s.wf(),
        s.stage == Stage::OfflineLookup,
        offline_autoconfig(info, s.param.addr) is Some,
    ensures
        step(s, ReplyView::Provider(info)).1 == CommandView::EmitProgress(500),
        step(s, ReplyView::Provider(info)).0.discovered == offline_autoconfig(info, s.param.addr),
        descriptors(step(s, ReplyView::Provider(info)).0) == offline_autoconfig(
            info,
            s.param.addr,
        )->0,
        forall|k: int|
            0 <= k < commands(step(s, ReplyView::Provider(info)).0, replies).len() ==> !(
            #[trigger] commands(step(s, ReplyView::Provider(info)).0, replies)[k] is Fetch),
{
    lemma_step(s, ReplyView::Provider(info));
    lemma_no_fetch_after_discovery(step(s, ReplyView::Provider(info)).0, replies);
}

/// Where discovery gave descriptors that leave nothing open, they are the
/// candidates as they stand, those for IMAP and those for SMTP apart.
pub proof fn lemma_complete_descriptors_are_candidates(s: RunView)
    requires
        s.discovered is Some,
        forall|i: int|
            0 <= i < s.discovered->0.len() ==> (#[trigger] s.discovered->0[i]).is_complete(),
    ensures
        with_candidates(s).imap == candidates_of(s.discovered->0, Protocol::IMAP),
        with_candidates(s).smtp == candidates_of(s.discovered->0, Protocol::SMTP),
{
    lemma_expand_of_complete(s.discovered->0, s.param.addr, s.domain);
}

/// The candidates of a run are never empty where nothing was discovered:
/// what the user entered, blank or not, expands to at least one IMAP and
/// one SMTP candidate.
pub proof fn lemma_fallback_has_candidates(s: RunView)
    requires
        s.discovered is None,
    ensures
        with_candidates(s).imap == candidates_of(
            expand(s.param.entered(), s.param.addr, s.domain),
            Protocol::IMAP,
        ),
        with_candidates(s).smtp == candidates_of(
            expand(s.param.entered(), s.param.addr, s.domain),
            Protocol::SMTP,
        ),
        with_candidates(s).imap.len() > 0,
        with_candidates(s).smtp.len() > 0,
{
    let entered = s.param.entered();
    let servers = expand(entered, s.param.addr, s.domain);
    lemma_expand_keeps_protocol(entered, s.param.addr, s.domain, 0);
    lemma_expand_keeps_protocol(entered, s.param.addr, s.domain, 1);
    let i = choose|i: int|
        0 <= i < servers.len() && (#[trigger] servers[i]).protocol == Protocol::IMAP;
    let j = choose|j: int|
        0 <= j < servers.len() && (#[trigger] servers[j]).protocol == Protocol::SMTP;
    lemma_kept_by_protocol(servers, Protocol::IMAP, i);
    lemma_kept_by_protocol(servers, Protocol::SMTP, j);
}

/// A list with a descriptor of a protocol has candidates of that protocol.
proof fn lemma_kept_by_protocol(servers: Seq<ServerParamsView>, protocol: Protocol, i: int)
    requires
        0 <= i < servers.len(),
        servers[i].protocol == protocol,
    ensures
        candidates_of(servers, protocol).len() > 0,
{
    let wanted = |p: ServerParamsView| p.protocol == protocol;
    servers.lemma_filter_contains(wanted, i);
}

/// A sequence of replies can be taken in two parts.
pub proof fn lemma_replies_in_parts(s: RunView, first: Seq<ReplyView>, second: Seq<ReplyView>)
    ensures
        state_after(s, first + second) == state_after(state_after(s, first), second),
        commands(s, first + second) == commands(s, first) + commands(
            state_after(s, first),
            second,
        ),
    decreases first.len(),
{
    if first.len() == 0 {
        assert(first + second =~= second);
        assert(commands(s, first) + commands(s, second) =~= commands(s, second));
    } else {
        let next = step(s, first[0]).0;
        assert((first + second).drop_first() =~= first.drop_first() + second);
        lemma_replies_in_parts(next, first.drop_first(), second);
        assert(commands(s, first + second) =~= commands(s, first) + commands(
            state_after(s, first),
            second,
        ));
    }
}

/// One reply makes one step.
proof fn lemma_one_reply(s: RunView, reply: ReplyView)
    ensures
        state_after(s, seq![reply]) == step(s, reply).0,
        commands(s, seq![reply]) == seq![step(s, reply).1],
{
    reveal_with_fuel(state_after, 2);
    reveal_with_fuel(commands, 2);
    assert(seq![reply].drop_first() =~= Seq::<ReplyView>::empty());
    assert(commands(s, seq![reply]) =~= seq![step(s, reply).1]);
}

/// The replies of online sources that fail one after the other: each
/// failure, and the acknowledgement of the report that follows it.
pub open spec fn failures(errors: Seq<ErrorView>) -> Seq<ReplyView>
    decreases errors.len(),
{
    if errors.len() == 0 {
        Seq::empty()
    } else {
        seq![ReplyView::Fetched(Err(errors[0])), ReplyView::Done] + failures(errors.drop_first())
    }
}

/// The command that asks an online source of the run.
pub open spec fn fetch_command(s: RunView, index: int) -> CommandView {
    let source = sources(s.domain, s.addr_urlencoded)[index];
    CommandView::Fetch { provider: source.provider, url: source.url }
}

/// Where the source that is asked and all after it fail, each failure is
/// reported, the next source is asked, and after the last one the
/// descriptors are settled with nothing discovered.
proof fn lemma_sources_fail(s: RunView, errors: Seq<ErrorView>)
    requires
        s.wf(),
        s.stage == Stage::Fetching,
        errors.len() >= 1,
        s.index + errors.len() == 5,
    ensures
        state_after(s, failures(errors)) == (RunView {
            stage: Stage::CandidatesFinal,
            index: 4,
            discovered: None,
            progress: 500,
            ..s
        }),
        commands(s, failures(errors)).len() == 2 * errors.len(),
        forall|k: int|
            0 <= k < errors.len() ==> #[trigger] commands(s, failures(errors))[2 * k]
                == CommandView::EmitProgress((300 + 10 * (s.index + k)) as u16),
        forall|k: int|
            0 <= k < errors.len() - 1 ==> #[trigger] commands(s, failures(errors))[2 * k + 1]
                == fetch_command(s, s.index + k + 1),
        commands(s, failures(errors))[2 * errors.len() - 1] == CommandView::EmitProgress(500),
    decreases errors.len(),
{
    let replies = failures(errors);
    let rest = failures(errors.drop_first());
    let failed = step(s, replies[0]);
    let acked = step(failed.0, ReplyView::Done);
    assert(replies.drop_first() =~= seq![ReplyView::Done] + rest);
    assert(replies.drop_first().drop_first() =~= rest);
    assert(replies.drop_first()[0] == ReplyView::Done);
    assert(state_after(s, replies) == state_after(acked.0, rest)) by {
        reveal_with_fuel(state_after, 2);
    }
    assert(commands(s, replies) =~= seq![failed.1, acked.1] + commands(acked.0, rest)) by {
        reveal_with_fuel(commands, 2);
    }
    lemma_step(s, replies[0]);
    lemma_step(failed.0, ReplyView::Done);
    if errors.len() == 1 {
        assert(rest =~= Seq::<ReplyView>::empty());
    } else {
        lemma_sources_fail(acked.0, errors.drop_first());
        let later = commands(acked.0, rest);
        assert forall|k: int| 0 <= k < errors.len() implies #[trigger] commands(s, replies)[2 * k]
            == CommandView::EmitProgress((300 + 10 * (s.index + k)) as u16) by {
            if k > 0 {
                assert(commands(s, replies)[2 * k] == later[2 * (k - 1)]);
            }
        }
        assert forall|k: int| 0 <= k < errors.len() - 1 implies #[trigger] commands(s, replies)[2
            * k + 1] == fetch_command(s, s.index + k + 1) by {
            if k > 0 {
                assert(commands(s, replies)[2 * k + 1] == later[2 * (k - 1) + 1]);
            }
        }
        assert(commands(s, replies)[2 * errors.len() - 1] == later[2 * (errors.len() - 1) - 1]);
    }
}

/// With no offline record and every online source failing, the five
/// sources are asked in their order, each once and each followed by its
/// report, and the run falls back on what the user entered: its candidates
/// are the expansion of that, with at least one for each protocol.
pub proof fn lemma_failed_discovery_falls_back(s: RunView, errors: Seq<ErrorView>)
    requires
        s.wf(),
        s.stage == Stage::OfflineLookup,
        errors.len() == 5,
    ensures
        ({
            let replies = seq![ReplyView::Provider(None)] + failures(errors) + seq![
                ReplyView::Done,
            ];
            let asked = commands(s, replies);
            let end = state_after(s, replies);
            &&& asked.len() == 12
            &&& forall|i: int| 0 <= i < 5 ==> #[trigger] asked[2 * i] == fetch_command(s, i)
            &&& forall|i: int|
                0 <= i < 5 ==> #[trigger] asked[2 * i + 1] == CommandView::EmitProgress(
                    (300 + 10 * i) as u16,
                )
            &&& asked[10] == CommandView::EmitProgress(500)
            &&& asked[11] == CommandView::EmitProgress(600)
            &&& end.stage == Stage::ImapBegun
            &&& end.imap == candidates_of(
                expand(s.param.entered(), s.param.addr, s.domain),
                Protocol::IMAP,
            )
            &&& end.smtp == candidates_of(
                expand(s.param.entered(), s.param.addr, s.domain),
                Protocol::SMTP,
            )
            &&& end.imap.len() > 0
            &&& end.smtp.len() > 0
        }),
{
    let lookup = seq![ReplyView::Provider(None)];
    let ack = seq![ReplyView::Done];
    let replies = lookup + failures(errors) + ack;
    let first = step(s, ReplyView::Provider(None));
    let settled = state_after(first.0, failures(errors));
    let last = step(settled, ReplyView::Done);
    lemma_one_reply(s, ReplyView::Provider(None));
    lemma_one_reply(settled, ReplyView::Done);
    lemma_replies_in_parts(s, lookup, failures(errors));
    lemma_replies_in_parts(s, lookup + failures(errors), ack);
    lemma_step(s, ReplyView::Provider(None));
    lemma_sources_fail(first.0, errors);
    lemma_fallback_has_candidates(settled);
    let failed = commands(first.0, failures(errors));
    let asked = commands(s, replies);
    assert(asked =~= seq![first.1] + failed + seq![last.1]);
    assert forall|i: int| 0 <= i < 5 implies #[trigger] asked[2 * i] == fetch_command(s, i) by {
        if i > 0 {
            assert(asked[2 * i] == failed[2 * (i - 1) + 1]);
        }
    }
    assert forall|i: int| 0 <= i < 5 implies #[trigger] asked[2 * i + 1]
        == CommandView::EmitProgress((300 + 10 * i) as u16) by {
        assert(asked[2 * i + 1] == failed[2 * i]);
    }
    assert(asked[10] == failed[9]);
}

/// The replies of servers that refuse `n` logins one after the other.
pub open spec fn refusals(n: nat) -> Seq<ReplyView> {
    Seq::new(n, |i: int| ReplyView::Connected(false))
}

/// The command that tries an IMAP candidate of the run.
pub open spec fn imap_trial(s: RunView, index: int) -> CommandView {
    CommandView::ConnectImap {
        param: s.param.imap.with_candidate(s.imap[index]),
        addr: s.param.addr,
        oauth2: s.oauth2,
    }
}

/// The command that tries an SMTP candidate of the run.
pub open spec fn smtp_trial(s: RunView, index: int) -> CommandView {
    CommandView::ConnectSmtp {
        param: s.param.smtp.with_candidate(s.smtp[index]),
        addr: s.param.addr,
        oauth2: s.oauth2,
    }
}

/// Where the IMAP candidate that is tried and all behind it are refused,
/// each of them is tried once, in the order of the candidates, and the
/// run fails when none is left. No candidate is tried again.
pub proof fn lemma_imap_refused(s: RunView)
    requires
        s.wf(),
        s.stage == Stage::TryingImap,
    ensures
        ({
            let left = (s.imap.len() - s.imap_cursor) as nat;
            let asked = commands(s, refusals(left));
            let end = state_after(s, refusals(left));
            &&& asked.len() == left
            &&& forall|k: int|
                0 <= k < left - 1 ==> #[trigger] asked[k] == imap_trial(s, s.imap_cursor + k + 1)
            &&& asked[left - 1] == CommandView::LookupProvider { addr: s.param.addr }
            &&& end.stage == Stage::WrapupLookup
            &&& end.failure == Some(ConfigureErrorView::ImapFailed)
        }),
    decreases s.imap.len() - s.imap_cursor,
{
    let left = (s.imap.len() - s.imap_cursor) as nat;
    let replies = refusals(left);
    let rest = refusals((left - 1) as nat);
    let next = step(s, ReplyView::Connected(false));
    assert(replies.drop_first() =~= rest);
    lemma_step(s, ReplyView::Connected(false));
    if left == 1 {
        assert(rest =~= Seq::<ReplyView>::empty());
        lemma_one_reply(s, ReplyView::Connected(false));
        assert(replies =~= seq![ReplyView::Connected(false)]);
    } else {
        lemma_imap_refused(next.0);
        let later = commands(next.0, rest);
        let asked = commands(s, replies);
        assert(asked =~= seq![next.1] + later);
        assert forall|k: int| 0 <= k < left - 1 implies #[trigger] asked[k] == imap_trial(
            s,
            s.imap_cursor + k + 1,
        ) by {
            if k > 0 {
                assert(asked[k] == later[k - 1]);
                assert(later[k - 1] == imap_trial(next.0, next.0.imap_cursor + k));
            }
        }
        assert(asked[left - 1] == later[left - 2]);
    }
}

/// Where the SMTP candidate that is tried and all behind it are refused,
/// each of them is tried once, in the order of the candidates, and the
/// run fails when none is left. No candidate is tried again.
pub proof fn lemma_smtp_refused(s: RunView)
    requires
        s.wf(),
        s.stage == Stage::TryingSmtp,
    ensures
        ({
            let left = (s.smtp.len() - s.smtp_cursor) as nat;
            let asked = commands(s, refusals(left));
            let end = state_after(s, refusals(left));
            &&& asked.len() == left
            &&& forall|k: int|
                0 <= k < left - 1 ==> #[trigger] asked[k] == smtp_trial(s, s.smtp_cursor + k + 1)
            &&& asked[left - 1] == CommandView::LookupProvider { addr: s.param.addr }
            &&& end.stage == Stage::WrapupLookup
            &&& end.failure == Some(ConfigureErrorView::SmtpFailed)
        }),
    decreases s.smtp.len() - s.smtp_cursor,
{
    let left = (s.smtp.len() - s.smtp_cursor) as nat;
    let replies = refusals(left);
    let rest = refusals((left - 1) as nat);
    let next = step(s, ReplyView::Connected(false));
    assert(replies.drop_first() =~= rest);
    lemma_step(s, ReplyView::Connected(false));
    if left == 1 {
        assert(rest =~= Seq::<ReplyView>::empty());
        lemma_one_reply(s, ReplyView::Connected(false));
        assert(replies =~= seq![ReplyView::Connected(false)]);
    } else {
        lemma_smtp_refused(next.0);
        let later = commands(next.0, rest);
        let asked = commands(s, replies);
        assert(asked =~= seq![next.1] + later);
        assert forall|k: int| 0 <= k < left - 1 implies #[trigger] asked[k] == smtp_trial(
            s,
            s.smtp_cursor + k + 1,
        ) by {
            if k > 0 {
                assert(asked[k] == later[k - 1]);
                assert(later[k - 1] == smtp_trial(next.0, next.0.smtp_cursor + k));
            }
        }
        assert(asked[left - 1] == later[left - 2]);
    }
}

/// The first candidate that is accepted ends the trial of its protocol,
/// and its parameters are kept: the IMAP trial goes on to SMTP, the SMTP
/// trial closes its connection, and the login parameters stay as they were
/// tried.
pub proof fn lemma_accepted_candidate_is_kept(s: RunView)
    requires
        s.wf(),
        s.stage == Stage::TryingImap || s.stage == Stage::TryingSmtp,
    ensures
        step(s, ReplyView::Connected(true)).0.param == s.param,
        s.stage == Stage::TryingImap ==> {
            &&& step(s, ReplyView::Connected(true)).1 == CommandView::EmitProgress(750)
            &&& s.param.imap == s.param.imap.with_candidate(s.imap[s.imap_cursor as int])
        },
        s.stage == Stage::TryingSmtp ==> {
            &&& step(s, ReplyView::Connected(true)).1 == CommandView::DisconnectSmtp
            &&& s.param.smtp == s.param.smtp.with_candidate(s.smtp[s.smtp_cursor as int])
        },
{
}

/// What is stored at the end are the parameters that were accepted: the
/// login parameters go to the store under the prefix `configured_`, and
/// they hold one of the IMAP candidates and one of the SMTP candidates of
/// the run.
pub proof fn lemma_stored_parameters_were_accepted(s: RunView, reply: ReplyView)
    requires
        s.wf(),
        step(s, reply).1 is SaveLoginParam,
    ensures
        step(s, reply).1 == (CommandView::SaveLoginParam {
            param: s.param,
            prefix: "configured_"@,
        }),
        s.imap_cursor < s.imap.len(),
        s.smtp_cursor < s.smtp.len(),
        s.param.imap == s.param.imap.with_candidate(s.imap[s.imap_cursor as int]),
        s.param.smtp == s.param.smtp.with_candidate(s.smtp[s.smtp_cursor as int]),
{
}

/// Cancellation ends a run that is under way: progress 0 is reported once,
/// nothing is reported after it, and the result that follows is no error.
pub proof fn lemma_cancellation(s: RunView, reply: ReplyView, replies: Seq<ReplyView>)
    requires
        s.wf(),
        !s.is_closing(),
    ensures
        step(s, ReplyView::Cancelled).1 == CommandView::EmitProgress(0),
        step(s, ReplyView::Cancelled).0.stage == Stage::Cancelling,
        step(step(s, ReplyView::Cancelled).0, reply).1 == CommandView::Finish(None),
        step(step(s, ReplyView::Cancelled).0, reply).0.stage == Stage::Finished,
        reports(step(s, ReplyView::Cancelled).0, replies).len() == 0,
{
    lemma_step(s, ReplyView::Cancelled);
    lemma_closing_is_silent(step(s, ReplyView::Cancelled).0, replies);
}

/// A cancelled run gives the slot up with its result, and the next run can
/// start at once.
pub proof fn lemma_cancellation_frees_slot(s: RunView, reply: ReplyView)
    requires
        s.wf(),
        !s.is_closing(),
    ensures
        ({
            let cancelled = advance_run(Some(s), ReplyView::Cancelled);
            let ended = advance_run(cancelled.0, reply);
            &&& cancelled.1 == Some(CommandView::EmitProgress(0))
            &&& ended.1 == Some(CommandView::Finish(None))
            &&& ended.0 is None
            &&& admit_run(ended.0, false, true).1 is Ok
            &&& admit_run(ended.0, false, true).0 is Some
        }),
{
}

/// The slot is held from the start of a run to its result and no longer:
/// while it is held no second run starts, and the step that hands out the
/// result is the step that gives it up.
pub proof fn lemma_single_flight(
    ongoing: Option<RunView>,
    reply: ReplyView,
    scheduler_running: bool,
    database_open: bool,
)
    requires
        ongoing matches Some(run) ==> run.wf() && run.stage != Stage::Finished,
    ensures
        ongoing is Some ==> admit_run(ongoing, scheduler_running, database_open).1 is Err
            && admit_run(ongoing, scheduler_running, database_open).0 == ongoing,
        ongoing is Some ==> (advance_run(ongoing, reply).0 is None <==> advance_run(
            ongoing,
            reply,
        ).1->0 is Finish),
        advance_run(ongoing, reply).0 matches Some(next) ==> next.wf() && next.stage
            != Stage::Finished,
        admit_run(ongoing, scheduler_running, database_open).0 matches Some(next)
            ==> next.wf() && next.stage != Stage::Finished,
{
    if let Some(run) = ongoing {
        lemma_step(run, reply);
    }
}

} // verus!
