//! The triage pipeline as a state machine.  A transition takes the phase
//! and one event — the outcome of the last outside call — and yields the
//! next phase, the one action the host must perform, and the log lines to
//! add to the transcript.  The host layer performs the action (an HTTP
//! call), feeds the outcome back as the next event, and keeps nothing of
//! its own: every decision is made, and verified, here.
//!
//! The machine has two layers: a per-message machine (classify, draft,
//! create, mark read, or research a file) and a run machine around it
//! (load the refresh token, authenticate, list the unread messages, and
//! walk them one by one).

use vstd::prelude::*;

use crate::b64::urlsafe_b64_of;
use crate::classify::{parse_verdict, spec_verdict, Verdict};
use crate::drive_query::{build_drive_query, spec_drive_query};
use crate::mime::{compose_encoded_reply, mime_plain, mime_with_attachment};
use crate::models::{dup_str, Attachment, DriveFile, Message, MessageId, MessageListResponse};
use crate::prompts::{
    drafting_prompt_spec, get_drafting_prompt, get_search_keywords_prompt,
    search_keywords_prompt_spec,
};
use crate::recipients::{resolve_recipients, resolved_list};
use crate::strutil::{
    concat2, concat3, dec_str, join_sep, join_with, split_commas_spec, u64_to_dec, views_of,
};

verus! {

/// What one message looks like to the machine: its handles, the headers
/// the reply needs, and the extracted body text.  `number` is the
/// 1-based position in the run, used only for the transcript.
pub struct MsgCtx {
    pub number: u64,
    pub message_id: String,
    pub thread_id: String,
    pub from: String,
    pub to: String,
    pub cc: String,
    pub subject: String,
    pub body: String,
}

/// The mathematical value of a message context.
pub ghost struct SpecMsgCtx {
    pub number: int,
    pub message_id: Seq<char>,
    pub thread_id: Seq<char>,
    pub from: Seq<char>,
    pub to: Seq<char>,
    pub cc: Seq<char>,
    pub subject: Seq<char>,
    pub body: Seq<char>,
}

impl View for MsgCtx {
    type V = SpecMsgCtx;

    open spec fn view(&self) -> SpecMsgCtx {
        SpecMsgCtx {
            number: self.number as int,
            message_id: self.message_id@,
            thread_id: self.thread_id@,
            from: self.from@,
            to: self.to@,
            cc: self.cc@,
            subject: self.subject@,
            body: self.body@,
        }
    }
}

/// The mathematical value of an attachment.
pub ghost struct SpecAttachment {
    pub filename: Seq<char>,
    pub mime_type: Seq<char>,
    pub data: Seq<u8>,
}

impl View for Attachment {
    type V = SpecAttachment;

    open spec fn view(&self) -> SpecAttachment {
        SpecAttachment { filename: self.filename@, mime_type: self.mime_type@, data: self.data@ }
    }
}

/// Where the handling of one message stands: which outside call the
/// machine is waiting on.
pub enum MsgPhase {
    /// The classifier was asked for a verdict.
    AwaitingVerdict,
    /// The drafter was asked for the reply text.
    AwaitingDraft { to_all: String, cc_all: String },
    /// The mailbox was asked to create the draft.
    AwaitingCreate,
    /// The mailbox was asked to mark the message read.
    AwaitingMarkRead,
    /// The model was asked for file-search keywords.
    AwaitingKeywords,
    /// The file storage was asked for candidates.
    AwaitingSearch,
    /// The top candidate's bytes were asked for.
    AwaitingDownload { filename: String, mime_type: String },
    /// The drafter was asked for the reply text, with a file to attach.
    AwaitingFileDraft { to_all: String, cc_all: String, attachment: Attachment },
    /// Nothing more to do for this message.
    MsgDone,
}

/// The mathematical value of a message phase.
pub ghost enum SpecMsgPhase {
    AwaitingVerdict,
    AwaitingDraft { to_all: Seq<char>, cc_all: Seq<char> },
    AwaitingCreate,
    AwaitingMarkRead,
    AwaitingKeywords,
    AwaitingSearch,
    AwaitingDownload { filename: Seq<char>, mime_type: Seq<char> },
    AwaitingFileDraft { to_all: Seq<char>, cc_all: Seq<char>, attachment: SpecAttachment },
    MsgDone,
}

impl View for MsgPhase {
    type V = SpecMsgPhase;

    open spec fn view(&self) -> SpecMsgPhase {
        match self {
            MsgPhase::AwaitingVerdict => SpecMsgPhase::AwaitingVerdict,
            MsgPhase::AwaitingDraft { to_all, cc_all } => SpecMsgPhase::AwaitingDraft {
                to_all: to_all@,
                cc_all: cc_all@,
            },
            MsgPhase::AwaitingCreate => SpecMsgPhase::AwaitingCreate,
            MsgPhase::AwaitingMarkRead => SpecMsgPhase::AwaitingMarkRead,
            MsgPhase::AwaitingKeywords => SpecMsgPhase::AwaitingKeywords,
            MsgPhase::AwaitingSearch => SpecMsgPhase::AwaitingSearch,
            MsgPhase::AwaitingDownload { filename, mime_type } => SpecMsgPhase::AwaitingDownload {
                filename: filename@,
                mime_type: mime_type@,
            },
            MsgPhase::AwaitingFileDraft { to_all, cc_all, attachment } => SpecMsgPhase::AwaitingFileDraft {
                to_all: to_all@,
                cc_all: cc_all@,
                attachment: attachment@,
            },
            MsgPhase::MsgDone => SpecMsgPhase::MsgDone,
        }
    }
}

/// The one outside call the host must perform next for this message;
/// `Finish` means the message is handled.
pub enum MsgAction {
    AskModel { prompt: String },
    CreateDraft { thread_id: String, raw: String },
    MarkRead { message_id: String },
    SearchFiles { query: String },
    DownloadFile { file_id: String },
    Finish,
}

/// The mathematical value of a message action.
pub ghost enum SpecMsgAction {
    AskModel { prompt: Seq<char> },
    CreateDraft { thread_id: Seq<char>, raw: Seq<char> },
    MarkRead { message_id: Seq<char> },
    SearchFiles { query: Seq<char> },
    DownloadFile { file_id: Seq<char> },
    Finish,
}

impl View for MsgAction {
    type V = SpecMsgAction;

    open spec fn view(&self) -> SpecMsgAction {
        match self {
            MsgAction::AskModel { prompt } => SpecMsgAction::AskModel { prompt: prompt@ },
            MsgAction::CreateDraft { thread_id, raw } => SpecMsgAction::CreateDraft {
                thread_id: thread_id@,
                raw: raw@,
            },
            MsgAction::MarkRead { message_id } => SpecMsgAction::MarkRead {
                message_id: message_id@,
            },
            MsgAction::SearchFiles { query } => SpecMsgAction::SearchFiles { query: query@ },
            MsgAction::DownloadFile { file_id } => SpecMsgAction::DownloadFile {
                file_id: file_id@,
            },
            MsgAction::Finish => SpecMsgAction::Finish,
        }
    }
}

/// The outcome of the last outside call, as the host reports it.
pub enum Event {
    /// The bootstrap refresh token, if the secret store had one.
    RefreshToken(Option<String>),
    /// The token exchange finished (the host keeps the token itself).
    TokenResult(Result<(), String>),
    /// The unread-message listing.
    ListResult(Result<MessageListResponse, String>),
    /// One message's details.
    DetailsResult(Result<Message, String>),
    /// The model's answer to the last prompt.
    ModelText(Result<String, String>),
    /// Draft creation finished.
    DraftCreated(Result<(), String>),
    /// Marking the message read finished.
    MarkedRead(Result<(), String>),
    /// The file-storage search result.
    FilesFound(Result<Vec<DriveFile>, String>),
    /// The downloaded file's bytes.
    FileBytes(Result<Vec<u8>, String>),
}

/// One message-machine transition: the next phase, the action to
/// perform, and the log lines this step adds.
pub struct MsgStep {
    pub next: MsgPhase,
    pub action: MsgAction,
    pub logs: Vec<String>,
}

/// The decision text shown in the transcript: the model's answer, or the
/// call's failure.
pub open spec fn spec_shown_decision(res: Result<String, String>) -> Seq<char> {
    match res {
        Ok(t) => t@,
        Err(e) => "Gemini Error: "@ + e@,
    }
}

/// The verdict of a classifier outcome: a failed call counts as
/// unrecognized, so it leads to a skip like any unrecognized answer.
pub open spec fn spec_event_verdict(res: Result<String, String>) -> Verdict {
    match res {
        Ok(t) => spec_verdict(t@),
        Err(_) => Verdict::Unrecognized,
    }
}

/// The reply's To field for a message: resolved and joined.
pub open spec fn spec_to_all(ctx: SpecMsgCtx, self_addr: Seq<char>) -> Seq<char> {
    join_sep(
        resolved_list(split_commas_spec(ctx.from) + split_commas_spec(ctx.to), self_addr),
        ", "@,
    )
}

/// The reply's Cc field for a message: resolved and joined.
pub open spec fn spec_cc_all(ctx: SpecMsgCtx, self_addr: Seq<char>) -> Seq<char> {
    join_sep(resolved_list(split_commas_spec(ctx.cc), self_addr), ", "@)
}

/// The transcript banner and verdict lines for one message.
pub open spec fn spec_verdict_logs(ctx: SpecMsgCtx, res: Result<String, String>) -> Seq<Seq<char>> {
    seq![
        "\n===== Email #"@ + dec_str(ctx.number as nat) + " ====="@,
        "- Subject: "@ + ctx.subject,
        "- Needs Reply?: "@ + spec_shown_decision(res),
    ]
}

/// One transcript line per found candidate file.
pub open spec fn spec_file_logs(files: Seq<DriveFile>) -> Seq<Seq<char>> {
    files.map_values(|f: DriveFile| "  - Name: "@ + f.name@ + ", URL: "@ + f.web_view_link@)
}

/// The message machine, as a mathematical function: what each phase does
/// with each event.  An event that does not belong to the phase ends the
/// message.
pub open spec fn msg_step_spec(
    self_addr: Seq<char>,
    ctx: SpecMsgCtx,
    phase: SpecMsgPhase,
    ev: Event,
) -> (SpecMsgPhase, SpecMsgAction, Seq<Seq<char>>) {
    match (phase, ev) {
        (SpecMsgPhase::AwaitingVerdict, Event::ModelText(res)) => {
            let base = spec_verdict_logs(ctx, res);
            match spec_event_verdict(res) {
                Verdict::NeedsReply => (
                    SpecMsgPhase::AwaitingDraft {
                        to_all: spec_to_all(ctx, self_addr),
                        cc_all: spec_cc_all(ctx, self_addr),
                    },
                    SpecMsgAction::AskModel {
                        prompt: drafting_prompt_spec(ctx.from, ctx.subject, ctx.body, None),
                    },
                    base + seq!["- Decision is YES. Drafting reply..."@],
                ),
                Verdict::NeedsReplyWithFile => (
                    SpecMsgPhase::AwaitingKeywords,
                    SpecMsgAction::AskModel { prompt: search_keywords_prompt_spec(ctx.body) },
                    base
                        + seq![
                        "- \u{2705} INTENT: File Request Detected. Proceeding to file research..."@,
                    ],
                ),
                Verdict::NoReplyNeeded => (SpecMsgPhase::MsgDone, SpecMsgAction::Finish, base),
                Verdict::Unrecognized => (
                    SpecMsgPhase::MsgDone,
                    SpecMsgAction::Finish,
                    base + seq!["- Unrecognized verdict; skipping."@],
                ),
            }
        },
        (SpecMsgPhase::AwaitingDraft { to_all, cc_all }, Event::ModelText(res)) => match res {
            Ok(t) => (
                SpecMsgPhase::AwaitingCreate,
                SpecMsgAction::CreateDraft {
                    thread_id: ctx.thread_id,
                    raw: urlsafe_b64_of(mime_plain(to_all, cc_all, ctx.subject, t@)),
                },
                seq!["- Draft from Gemini: "@ + t@],
            ),
            Err(e) => (
                SpecMsgPhase::MsgDone,
                SpecMsgAction::Finish,
                seq!["- Failed to generate draft from Gemini: "@ + e@],
            ),
        },
        (SpecMsgPhase::AwaitingCreate, Event::DraftCreated(res)) => match res {
            Ok(_) => (
                SpecMsgPhase::AwaitingMarkRead,
                SpecMsgAction::MarkRead { message_id: ctx.message_id },
                seq!["- Successfully created draft in Gmail."@],
            ),
            Err(e) => (
                SpecMsgPhase::MsgDone,
                SpecMsgAction::Finish,
                seq!["- Failed to create draft: "@ + e@],
            ),
        },
        (SpecMsgPhase::AwaitingMarkRead, Event::MarkedRead(res)) => match res {
            Ok(_) => (
                SpecMsgPhase::MsgDone,
                SpecMsgAction::Finish,
                seq!["- Successfully marked original email as read."@],
            ),
            Err(e) => (
                SpecMsgPhase::MsgDone,
                SpecMsgAction::Finish,
                seq!["- Failed to mark email as read: "@ + e@],
            ),
        },
        (SpecMsgPhase::AwaitingKeywords, Event::ModelText(res)) => match res {
            Ok(kw) => (
                SpecMsgPhase::AwaitingSearch,
                SpecMsgAction::SearchFiles { query: spec_drive_query(kw@) },
                seq![
                    "- Keywords for search: '"@ + kw@ + "'"@,
                    "- Executing Drive search with query: "@ + spec_drive_query(kw@),
                ],
            ),
            Err(e) => (
                SpecMsgPhase::MsgDone,
                SpecMsgAction::Finish,
                seq!["- \u{274c} Error getting search keywords from Gemini: "@ + e@],
            ),
        },
        (SpecMsgPhase::AwaitingSearch, Event::FilesFound(res)) => match res {
            Ok(files) => if files@.len() == 0 {
                (
                    SpecMsgPhase::MsgDone,
                    SpecMsgAction::Finish,
                    seq!["- \u{26a0}\u{fe0f} No files found matching the search query."@],
                )
            } else {
                (
                    SpecMsgPhase::AwaitingDownload {
                        filename: files@[0].name@,
                        mime_type: files@[0].mime_type@,
                    },
                    SpecMsgAction::DownloadFile { file_id: files@[0].id@ },
                    seq!["- \u{2705} Found "@ + dec_str(files@.len()) + " matching file(s):"@]
                        + spec_file_logs(files@) + seq![
                        "- Downloading top candidate: "@ + files@[0].name@,
                    ],
                )
            },
            Err(e) => (
                SpecMsgPhase::MsgDone,
                SpecMsgAction::Finish,
                seq!["- \u{274c} Error during Google Drive search: "@ + e@],
            ),
        },
        (SpecMsgPhase::AwaitingDownload { filename, mime_type }, Event::FileBytes(res)) => match res {
            Ok(bytes) => (
                SpecMsgPhase::AwaitingFileDraft {
                    to_all: spec_to_all(ctx, self_addr),
                    cc_all: spec_cc_all(ctx, self_addr),
                    attachment: SpecAttachment { filename, mime_type, data: bytes@ },
                },
                SpecMsgAction::AskModel {
                    prompt: drafting_prompt_spec(ctx.from, ctx.subject, ctx.body, Some(filename)),
                },
                seq!["- Downloaded candidate file: "@ + filename],
            ),
            Err(e) => (
                SpecMsgPhase::MsgDone,
                SpecMsgAction::Finish,
                seq!["- \u{274c} Error downloading file: "@ + e@],
            ),
        },
        (SpecMsgPhase::AwaitingFileDraft { to_all, cc_all, attachment }, Event::ModelText(res)) => match res {
            Ok(t) => (
                SpecMsgPhase::AwaitingCreate,
                SpecMsgAction::CreateDraft {
                    thread_id: ctx.thread_id,
                    raw: urlsafe_b64_of(
                        mime_with_attachment(
                            to_all,
                            cc_all,
                            ctx.subject,
                            t@,
                            attachment.mime_type,
                            attachment.filename,
                            attachment.data,
                        ),
                    ),
                },
                seq!["- Draft from Gemini: "@ + t@],
            ),
            Err(e) => (
                SpecMsgPhase::MsgDone,
                SpecMsgAction::Finish,
                seq!["- Failed to generate draft from Gemini: "@ + e@],
            ),
        },
        _ => (SpecMsgPhase::MsgDone, SpecMsgAction::Finish, Seq::empty()),
    }
}

fn finish_step(line: String) -> (r: MsgStep)
    ensures
        r.next@ == SpecMsgPhase::MsgDone,
        r.action@ == SpecMsgAction::Finish,
        views_of(r.logs@) == seq![line@],
{
    let ghost l = line@;
    let mut logs: Vec<String> = Vec::new();
    logs.push(line);
    proof {
        assert(views_of(logs@) =~= seq![l]);
    }
    MsgStep { next: MsgPhase::MsgDone, action: MsgAction::Finish, logs }
}

fn handle_verdict(self_addr: &str, ctx: &MsgCtx, res: Result<String, String>) -> (r: MsgStep)
    ensures
        r.next@ == msg_step_spec(self_addr@, ctx@, SpecMsgPhase::AwaitingVerdict, Event::ModelText(res)).0,
        r.action@ == msg_step_spec(self_addr@, ctx@, SpecMsgPhase::AwaitingVerdict, Event::ModelText(res)).1,
        views_of(r.logs@) == msg_step_spec(
            self_addr@,
            ctx@,
            SpecMsgPhase::AwaitingVerdict,
            Event::ModelText(res),
        ).2,
{
    let mut logs: Vec<String> = Vec::new();
    let num = u64_to_dec(ctx.number);
    logs.push(concat3("\n===== Email #", num.as_str(), " ====="));
    logs.push(concat2("- Subject: ", ctx.subject.as_str()));
    let shown = match &res {
        Ok(t) => dup_str(t),
        Err(e) => concat2("Gemini Error: ", e.as_str()),
    };
    logs.push(concat2("- Needs Reply?: ", shown.as_str()));
    proof {
        assert(views_of(logs@) =~= spec_verdict_logs(ctx@, res));
    }
    let verdict = match &res {
        Ok(t) => parse_verdict(t.as_str()),
        Err(_) => Verdict::Unrecognized,
    };
    match verdict {
        Verdict::NeedsReply => {
            let ghost before = logs@;
            logs.push("- Decision is YES. Drafting reply...".to_owned());
            proof {
                assert(views_of(logs@) =~= views_of(before) + seq![
                    "- Decision is YES. Drafting reply..."@,
                ]);
            }
            let (to_list, cc_list) = resolve_recipients(
                ctx.from.as_str(),
                ctx.to.as_str(),
                ctx.cc.as_str(),
                self_addr,
            );
            let to_all = join_with(&to_list, ", ");
            let cc_all = join_with(&cc_list, ", ");
            let prompt = get_drafting_prompt(
                ctx.from.as_str(),
                ctx.subject.as_str(),
                ctx.body.as_str(),
                None,
            );
            MsgStep {
                next: MsgPhase::AwaitingDraft { to_all, cc_all },
                action: MsgAction::AskModel { prompt },
                logs,
            }
        },
        Verdict::NeedsReplyWithFile => {
            let ghost before = logs@;
            logs.push(
                "- \u{2705} INTENT: File Request Detected. Proceeding to file research...".to_owned(),
            );
            proof {
                assert(views_of(logs@) =~= views_of(before) + seq![
                    "- \u{2705} INTENT: File Request Detected. Proceeding to file research..."@,
                ]);
            }
            let prompt = get_search_keywords_prompt(ctx.body.as_str());
            MsgStep {
                next: MsgPhase::AwaitingKeywords,
                action: MsgAction::AskModel { prompt },
                logs,
            }
        },
        Verdict::NoReplyNeeded => {
            MsgStep { next: MsgPhase::MsgDone, action: MsgAction::Finish, logs }
        },
        Verdict::Unrecognized => {
            let ghost before = logs@;
            logs.push("- Unrecognized verdict; skipping.".to_owned());
            proof {
                assert(views_of(logs@) =~= views_of(before) + seq![
                    "- Unrecognized verdict; skipping."@,
                ]);
            }
            MsgStep { next: MsgPhase::MsgDone, action: MsgAction::Finish, logs }
        },
    }
}

fn handle_draft(
    self_addr: &str,
    ctx: &MsgCtx,
    to_all: String,
    cc_all: String,
    res: Result<String, String>,
) -> (r: MsgStep)
    ensures
        r.next@ == msg_step_spec(
            self_addr@,
            ctx@,
            SpecMsgPhase::AwaitingDraft { to_all: to_all@, cc_all: cc_all@ },
            Event::ModelText(res),
        ).0,
        r.action@ == msg_step_spec(
            self_addr@,
            ctx@,
            SpecMsgPhase::AwaitingDraft { to_all: to_all@, cc_all: cc_all@ },
            Event::ModelText(res),
        ).1,
        views_of(r.logs@) == msg_step_spec(
            self_addr@,
            ctx@,
            SpecMsgPhase::AwaitingDraft { to_all: to_all@, cc_all: cc_all@ },
            Event::ModelText(res),
        ).2,
{
    match res {
        Ok(t) => {
            let mut logs: Vec<String> = Vec::new();
            logs.push(concat2("- Draft from Gemini: ", t.as_str()));
            proof {
                assert(views_of(logs@) =~= seq!["- Draft from Gemini: "@ + t@]);
            }
            let raw = compose_encoded_reply(
                to_all.as_str(),
                cc_all.as_str(),
                ctx.subject.as_str(),
                t.as_str(),
                None,
            );
            MsgStep {
                next: MsgPhase::AwaitingCreate,
                action: MsgAction::CreateDraft { thread_id: dup_str(&ctx.thread_id), raw },
                logs,
            }
        },
        Err(e) => finish_step(concat2("- Failed to generate draft from Gemini: ", e.as_str())),
    }
}

fn handle_create(self_addr: &str, ctx: &MsgCtx, res: Result<(), String>) -> (r: MsgStep)
    ensures
        r.next@ == msg_step_spec(
            self_addr@,
            ctx@,
            SpecMsgPhase::AwaitingCreate,
            Event::DraftCreated(res),
        ).0,
        r.action@ == msg_step_spec(
            self_addr@,
            ctx@,
            SpecMsgPhase::AwaitingCreate,
            Event::DraftCreated(res),
        ).1,
        views_of(r.logs@) == msg_step_spec(
            self_addr@,
            ctx@,
            SpecMsgPhase::AwaitingCreate,
            Event::DraftCreated(res),
        ).2,
{
    match res {
        Ok(_) => {
            let mut logs: Vec<String> = Vec::new();
            logs.push("- Successfully created draft in Gmail.".to_owned());
            proof {
                assert(views_of(logs@) =~= seq!["- Successfully created draft in Gmail."@]);
            }
            MsgStep {
                next: MsgPhase::AwaitingMarkRead,
                action: MsgAction::MarkRead { message_id: dup_str(&ctx.message_id) },
                logs,
            }
        },
        Err(e) => finish_step(concat2("- Failed to create draft: ", e.as_str())),
    }
}

fn handle_mark_read(self_addr: &str, ctx: &MsgCtx, res: Result<(), String>) -> (r: MsgStep)
    ensures
        r.next@ == msg_step_spec(
            self_addr@,
            ctx@,
            SpecMsgPhase::AwaitingMarkRead,
            Event::MarkedRead(res),
        ).0,
        r.action@ == msg_step_spec(
            self_addr@,
            ctx@,
            SpecMsgPhase::AwaitingMarkRead,
            Event::MarkedRead(res),
        ).1,
        views_of(r.logs@) == msg_step_spec(
            self_addr@,
            ctx@,
            SpecMsgPhase::AwaitingMarkRead,
            Event::MarkedRead(res),
        ).2,
{
    match res {
        Ok(_) => finish_step("- Successfully marked original email as read.".to_owned()),
        Err(e) => finish_step(concat2("- Failed to mark email as read: ", e.as_str())),
    }
}

fn handle_keywords(self_addr: &str, ctx: &MsgCtx, res: Result<String, String>) -> (r: MsgStep)
    ensures
        r.next@ == msg_step_spec(
            self_addr@,
            ctx@,
            SpecMsgPhase::AwaitingKeywords,
            Event::ModelText(res),
        ).0,
        r.action@ == msg_step_spec(
            self_addr@,
            ctx@,
            SpecMsgPhase::AwaitingKeywords,
            Event::ModelText(res),
        ).1,
        views_of(r.logs@) == msg_step_spec(
            self_addr@,
            ctx@,
            SpecMsgPhase::AwaitingKeywords,
            Event::ModelText(res),
        ).2,
{
    match res {
        Ok(kw) => {
            let query = build_drive_query(kw.as_str());
            let mut logs: Vec<String> = Vec::new();
            logs.push(concat3("- Keywords for search: '", kw.as_str(), "'"));
            logs.push(concat2("- Executing Drive search with query: ", query.as_str()));
            proof {
                assert(views_of(logs@) =~= seq![
                    "- Keywords for search: '"@ + kw@ + "'"@,
                    "- Executing Drive search with query: "@ + spec_drive_query(kw@),
                ]);
            }
            MsgStep {
                next: MsgPhase::AwaitingSearch,
                action: MsgAction::SearchFiles { query },
                logs,
            }
        },
        Err(e) => finish_step(
            concat2("- \u{274c} Error getting search keywords from Gemini: ", e.as_str()),
        ),
    }
}

fn handle_search(self_addr: &str, ctx: &MsgCtx, res: Result<Vec<DriveFile>, String>) -> (r: MsgStep)
    ensures
        r.next@ == msg_step_spec(
            self_addr@,
            ctx@,
            SpecMsgPhase::AwaitingSearch,
            Event::FilesFound(res),
        ).0,
        r.action@ == msg_step_spec(
            self_addr@,
            ctx@,
            SpecMsgPhase::AwaitingSearch,
            Event::FilesFound(res),
        ).1,
        views_of(r.logs@) == msg_step_spec(
            self_addr@,
            ctx@,
            SpecMsgPhase::AwaitingSearch,
            Event::FilesFound(res),
        ).2,
{
    match res {
        Ok(files) => {
            if files.len() == 0 {
                finish_step(
                    "- \u{26a0}\u{fe0f} No files found matching the search query.".to_owned(),
                )
            } else {
                let mut logs: Vec<String> = Vec::new();
                let count = u64_to_dec(files.len() as u64);
                logs.push(concat3("- \u{2705} Found ", count.as_str(), " matching file(s):"));
                let ghost head = seq![
                    "- \u{2705} Found "@ + dec_str(files@.len()) + " matching file(s):"@,
                ];
                proof {
                    assert(views_of(logs@) =~= head);
                    assert(spec_file_logs(files@.take(0)) =~= Seq::<Seq<char>>::empty());
                    assert(head + spec_file_logs(files@.take(0)) =~= head);
                }
                let mut k: usize = 0;
                while k < files.len()
                    invariant
                        0 <= k <= files@.len(),
                        views_of(logs@) == head + spec_file_logs(files@.take(k as int)),
                    decreases files@.len() - k,
                {
                    let ghost before = logs@;
                    let f = &files[k];
                    logs.push(
                        crate::strutil::concat4(
                            "  - Name: ",
                            f.name.as_str(),
                            ", URL: ",
                            f.web_view_link.as_str(),
                        ),
                    );
                    proof {
                        let ghost line = "  - Name: "@ + files@[k as int].name@ + ", URL: "@
                            + files@[k as int].web_view_link@;
                        assert(views_of(logs@) =~= views_of(before) + seq![line]);
                        assert(spec_file_logs(files@.take(k as int + 1)) =~= spec_file_logs(
                            files@.take(k as int),
                        ) + seq![line]);
                        assert(views_of(logs@) =~= head + spec_file_logs(files@.take(k as int + 1)));
                    }
                    k += 1;
                }
                proof {
                    assert(files@.take(files@.len() as int) =~= files@);
                }
                let ghost before = logs@;
                let top_name = dup_str(&files[0].name);
                logs.push(concat2("- Downloading top candidate: ", top_name.as_str()));
                proof {
                    assert(views_of(logs@) =~= views_of(before) + seq![
                        "- Downloading top candidate: "@ + files@[0].name@,
                    ]);
                }
                let next = MsgPhase::AwaitingDownload {
                    filename: top_name,
                    mime_type: dup_str(&files[0].mime_type),
                };
                let action = MsgAction::DownloadFile { file_id: dup_str(&files[0].id) };
                MsgStep { next, action, logs }
            }
        },
        Err(e) => finish_step(
            concat2("- \u{274c} Error during Google Drive search: ", e.as_str()),
        ),
    }
}

fn handle_download(
    self_addr: &str,
    ctx: &MsgCtx,
    filename: String,
    mime_type: String,
    res: Result<Vec<u8>, String>,
) -> (r: MsgStep)
    ensures
        r.next@ == msg_step_spec(
            self_addr@,
            ctx@,
            SpecMsgPhase::AwaitingDownload { filename: filename@, mime_type: mime_type@ },
            Event::FileBytes(res),
        ).0,
        r.action@ == msg_step_spec(
            self_addr@,
            ctx@,
            SpecMsgPhase::AwaitingDownload { filename: filename@, mime_type: mime_type@ },
            Event::FileBytes(res),
        ).1,
        views_of(r.logs@) == msg_step_spec(
            self_addr@,
            ctx@,
            SpecMsgPhase::AwaitingDownload { filename: filename@, mime_type: mime_type@ },
            Event::FileBytes(res),
        ).2,
{
    match res {
        Ok(bytes) => {
            let mut logs: Vec<String> = Vec::new();
            logs.push(concat2("- Downloaded candidate file: ", filename.as_str()));
            proof {
                assert(views_of(logs@) =~= seq!["- Downloaded candidate file: "@ + filename@]);
            }
            let (to_list, cc_list) = resolve_recipients(
                ctx.from.as_str(),
                ctx.to.as_str(),
                ctx.cc.as_str(),
                self_addr,
            );
            let to_all = join_with(&to_list, ", ");
            let cc_all = join_with(&cc_list, ", ");
            let prompt = get_drafting_prompt(
                ctx.from.as_str(),
                ctx.subject.as_str(),
                ctx.body.as_str(),
                Some(dup_str(&filename)),
            );
            let attachment = Attachment { filename, mime_type, data: bytes };
            MsgStep {
                next: MsgPhase::AwaitingFileDraft { to_all, cc_all, attachment },
                action: MsgAction::AskModel { prompt },
                logs,
            }
        },
        Err(e) => finish_step(concat2("- \u{274c} Error downloading file: ", e.as_str())),
    }
}

fn handle_file_draft(
    self_addr: &str,
    ctx: &MsgCtx,
    to_all: String,
    cc_all: String,
    attachment: Attachment,
    res: Result<String, String>,
) -> (r: MsgStep)
    ensures
        r.next@ == msg_step_spec(
            self_addr@,
            ctx@,
            SpecMsgPhase::AwaitingFileDraft {
                to_all: to_all@,
                cc_all: cc_all@,
                attachment: attachment@,
            },
            Event::ModelText(res),
        ).0,
        r.action@ == msg_step_spec(
            self_addr@,
            ctx@,
            SpecMsgPhase::AwaitingFileDraft {
                to_all: to_all@,
                cc_all: cc_all@,
                attachment: attachment@,
            },
            Event::ModelText(res),
        ).1,
        views_of(r.logs@) == msg_step_spec(
            self_addr@,
            ctx@,
            SpecMsgPhase::AwaitingFileDraft {
                to_all: to_all@,
                cc_all: cc_all@,
                attachment: attachment@,
            },
            Event::ModelText(res),
        ).2,
{
    match res {
        Ok(t) => {
            let mut logs: Vec<String> = Vec::new();
            logs.push(concat2("- Draft from Gemini: ", t.as_str()));
            proof {
                assert(views_of(logs@) =~= seq!["- Draft from Gemini: "@ + t@]);
            }
            let raw = compose_encoded_reply(
                to_all.as_str(),
                cc_all.as_str(),
                ctx.subject.as_str(),
                t.as_str(),
                Some(&attachment),
            );
            MsgStep {
                next: MsgPhase::AwaitingCreate,
                action: MsgAction::CreateDraft { thread_id: dup_str(&ctx.thread_id), raw },
                logs,
            }
        },
        Err(e) => finish_step(concat2("- Failed to generate draft from Gemini: ", e.as_str())),
    }
}

/// The actions a run of the message machine emits from `phase` under the
/// event sequence `evs`, one action per event, in order.
pub open spec fn msg_actions(
    self_addr: Seq<char>,
    ctx: SpecMsgCtx,
    phase: SpecMsgPhase,
    evs: Seq<Event>,
) -> Seq<SpecMsgAction>
    decreases evs.len(),
{
    if evs.len() == 0 {
        Seq::empty()
    } else {
        let step = msg_step_spec(self_addr, ctx, phase, evs[0]);
        seq![step.1] + msg_actions(self_addr, ctx, step.0, evs.drop_first())
    }
}

/// How many draft-creation actions a sequence holds.
pub open spec fn count_create(acts: Seq<SpecMsgAction>) -> nat
    decreases acts.len(),
{
    if acts.len() == 0 {
        0
    } else {
        (if acts[0] is CreateDraft {
            1nat
        } else {
            0nat
        }) + count_create(acts.drop_first())
    }
}

/// How many mark-read actions a sequence holds.
pub open spec fn count_mark(acts: Seq<SpecMsgAction>) -> nat
    decreases acts.len(),
{
    if acts.len() == 0 {
        0
    } else {
        (if acts[0] is MarkRead {
            1nat
        } else {
            0nat
        }) + count_mark(acts.drop_first())
    }
}

proof fn lemma_count_cons(a: SpecMsgAction, rest: Seq<SpecMsgAction>)
    ensures
        count_create(seq![a] + rest) == (if a is CreateDraft {
            1nat
        } else {
            0nat
        }) + count_create(rest),
        count_mark(seq![a] + rest) == (if a is MarkRead {
            1nat
        } else {
            0nat
        }) + count_mark(rest),
{
    assert((seq![a] + rest).len() == rest.len() + 1);
    assert((seq![a] + rest)[0] == a);
    assert((seq![a] + rest).drop_first() =~= rest);
}

/// How many draft creations a phase may still emit.
pub open spec fn create_budget(phase: SpecMsgPhase) -> nat {
    match phase {
        SpecMsgPhase::AwaitingCreate => 0,
        SpecMsgPhase::AwaitingMarkRead => 0,
        SpecMsgPhase::MsgDone => 0,
        _ => 1,
    }
}

/// How many mark-read actions a phase may still emit.
pub open spec fn mark_budget(phase: SpecMsgPhase) -> nat {
    match phase {
        SpecMsgPhase::AwaitingMarkRead => 0,
        SpecMsgPhase::MsgDone => 0,
        _ => 1,
    }
}

/// Whatever the events, one message is never drafted twice and never
/// marked read twice: any run of the message machine emits at most one
/// draft-creation action and at most one mark-read action.
pub proof fn lemma_at_most_one_draft(
    self_addr: Seq<char>,
    ctx: SpecMsgCtx,
    phase: SpecMsgPhase,
    evs: Seq<Event>,
)
    ensures
        count_create(msg_actions(self_addr, ctx, phase, evs)) <= create_budget(phase),
        count_mark(msg_actions(self_addr, ctx, phase, evs)) <= mark_budget(phase),
    decreases evs.len(),
{
    if evs.len() == 0 {
    } else {
        let step = msg_step_spec(self_addr, ctx, phase, evs[0]);
        lemma_at_most_one_draft(self_addr, ctx, step.0, evs.drop_first());
        lemma_count_cons(step.1, msg_actions(self_addr, ctx, step.0, evs.drop_first()));
    }
}

/// Every action of a run that starts at `MsgDone` is `Finish`.
pub proof fn lemma_done_all_finish(self_addr: Seq<char>, ctx: SpecMsgCtx, evs: Seq<Event>)
    ensures
        forall|k: int|
            0 <= k < msg_actions(self_addr, ctx, SpecMsgPhase::MsgDone, evs).len()
                ==> msg_actions(self_addr, ctx, SpecMsgPhase::MsgDone, evs)[k]
                == SpecMsgAction::Finish,
    decreases evs.len(),
{
    if evs.len() > 0 {
        lemma_done_all_finish(self_addr, ctx, evs.drop_first());
        let step = msg_step_spec(self_addr, ctx, SpecMsgPhase::MsgDone, evs[0]);
        assert(step.0 == SpecMsgPhase::MsgDone && step.1 == SpecMsgAction::Finish);
    }
}

/// A verdict of "no reply needed" — or an unrecognized or failed
/// classification — never triggers a draft-creation or a mark-read call:
/// every action the machine emits from then on is `Finish`.
pub proof fn lemma_no_reply_no_calls(self_addr: Seq<char>, ctx: SpecMsgCtx, evs: Seq<Event>)
    requires
        evs.len() > 0,
        evs[0] matches Event::ModelText(res) && (spec_event_verdict(res)
            == Verdict::NoReplyNeeded || spec_event_verdict(res) == Verdict::Unrecognized),
    ensures
        forall|k: int|
            0 <= k < msg_actions(self_addr, ctx, SpecMsgPhase::AwaitingVerdict, evs).len()
                ==> msg_actions(self_addr, ctx, SpecMsgPhase::AwaitingVerdict, evs)[k]
                == SpecMsgAction::Finish,
{
    let step = msg_step_spec(self_addr, ctx, SpecMsgPhase::AwaitingVerdict, evs[0]);
    assert(step.0 == SpecMsgPhase::MsgDone && step.1 == SpecMsgAction::Finish);
    lemma_done_all_finish(self_addr, ctx, evs.drop_first());
    let acts = msg_actions(self_addr, ctx, SpecMsgPhase::AwaitingVerdict, evs);
    let rest = msg_actions(self_addr, ctx, SpecMsgPhase::MsgDone, evs.drop_first());
    assert(acts == seq![step.1] + rest);
    assert forall|k: int| 0 <= k < acts.len() implies acts[k] == SpecMsgAction::Finish by {
        if k > 0 {
            assert(acts[k] == rest[k - 1]);
        }
    }
}

/// Every action of a run that starts at `AwaitingMarkRead` is `Finish`
/// (the mark-read call itself was already issued on the way in).
proof fn lemma_markread_all_finish(self_addr: Seq<char>, ctx: SpecMsgCtx, evs: Seq<Event>)
    ensures
        forall|k: int|
            0 <= k < msg_actions(self_addr, ctx, SpecMsgPhase::AwaitingMarkRead, evs).len()
                ==> msg_actions(self_addr, ctx, SpecMsgPhase::AwaitingMarkRead, evs)[k]
                == SpecMsgAction::Finish,
        count_create(msg_actions(self_addr, ctx, SpecMsgPhase::AwaitingMarkRead, evs)) == 0,
        count_mark(msg_actions(self_addr, ctx, SpecMsgPhase::AwaitingMarkRead, evs)) == 0,
{
    let acts = msg_actions(self_addr, ctx, SpecMsgPhase::AwaitingMarkRead, evs);
    if evs.len() == 0 {
    } else {
        let step = msg_step_spec(self_addr, ctx, SpecMsgPhase::AwaitingMarkRead, evs[0]);
        assert(step.0 == SpecMsgPhase::MsgDone && step.1 == SpecMsgAction::Finish);
        lemma_done_all_finish(self_addr, ctx, evs.drop_first());
        let rest = msg_actions(self_addr, ctx, SpecMsgPhase::MsgDone, evs.drop_first());
        lemma_count_cons(step.1, rest);
        lemma_counts_zero_of_finish(rest);
        assert forall|k: int| 0 <= k < acts.len() implies acts[k] == SpecMsgAction::Finish by {
            if k > 0 {
                assert(acts[k] == rest[k - 1]);
            }
        }
    }
}

proof fn lemma_counts_zero_of_finish(acts: Seq<SpecMsgAction>)
    requires
        forall|k: int| 0 <= k < acts.len() ==> acts[k] == SpecMsgAction::Finish,
    ensures
        count_create(acts) == 0,
        count_mark(acts) == 0,
    decreases acts.len(),
{
    if acts.len() > 0 {
        lemma_counts_zero_of_finish(acts.drop_first());
    }
}

/// From `AwaitingCreate`: no further draft creation ever; a mark-read
/// action is emitted exactly when the first event reports the creation
/// succeeded, and it is the very next action.
proof fn lemma_create_counts(self_addr: Seq<char>, ctx: SpecMsgCtx, evs: Seq<Event>)
    ensures
        count_create(msg_actions(self_addr, ctx, SpecMsgPhase::AwaitingCreate, evs)) == 0,
        count_mark(msg_actions(self_addr, ctx, SpecMsgPhase::AwaitingCreate, evs)) == (if evs.len()
            >= 1 && (evs[0] matches Event::DraftCreated(Ok(_))) {
            1nat
        } else {
            0nat
        }),
        (evs.len() >= 1 && (evs[0] matches Event::DraftCreated(Ok(_)))) ==> msg_actions(
            self_addr,
            ctx,
            SpecMsgPhase::AwaitingCreate,
            evs,
        )[0] is MarkRead,
{
    if evs.len() == 0 {
    } else {
        let step = msg_step_spec(self_addr, ctx, SpecMsgPhase::AwaitingCreate, evs[0]);
        let rest = msg_actions(self_addr, ctx, step.0, evs.drop_first());
        lemma_count_cons(step.1, rest);
        if evs[0] matches Event::DraftCreated(Ok(_)) {
            lemma_markread_all_finish(self_addr, ctx, evs.drop_first());
        } else {
            assert(step.0 == SpecMsgPhase::MsgDone);
            lemma_done_all_finish(self_addr, ctx, evs.drop_first());
            lemma_counts_zero_of_finish(rest);
        }
    }
}

/// A verdict of "needs reply" triggers exactly one draft-creation call —
/// the action right after the drafter's text arrives — and exactly one
/// mark-read call right after, and only when, the creation succeeded.
pub proof fn lemma_needs_reply_one_draft(self_addr: Seq<char>, ctx: SpecMsgCtx, evs: Seq<Event>)
    requires
        evs.len() > 0,
        evs[0] matches Event::ModelText(res) && spec_event_verdict(res) == Verdict::NeedsReply,
    ensures
        count_create(msg_actions(self_addr, ctx, SpecMsgPhase::AwaitingVerdict, evs)) == (if evs.len()
            >= 2 && (evs[1] matches Event::ModelText(Ok(_))) {
            1nat
        } else {
            0nat
        }),
        count_mark(msg_actions(self_addr, ctx, SpecMsgPhase::AwaitingVerdict, evs)) == (if evs.len()
            >= 3 && (evs[1] matches Event::ModelText(Ok(_))) && (evs[2] matches Event::DraftCreated(
            Ok(_),
        )) {
            1nat
        } else {
            0nat
        }),
        (evs.len() >= 2 && (evs[1] matches Event::ModelText(Ok(_)))) ==> msg_actions(
            self_addr,
            ctx,
            SpecMsgPhase::AwaitingVerdict,
            evs,
        )[1] is CreateDraft,
        (evs.len() >= 3 && (evs[1] matches Event::ModelText(Ok(_))) && (evs[2]
            matches Event::DraftCreated(Ok(_)))) ==> msg_actions(
            self_addr,
            ctx,
            SpecMsgPhase::AwaitingVerdict,
            evs,
        )[2] is MarkRead,
{
    let step0 = msg_step_spec(self_addr, ctx, SpecMsgPhase::AwaitingVerdict, evs[0]);
    assert(step0.0 matches SpecMsgPhase::AwaitingDraft { .. });
    assert(step0.1 !is CreateDraft && step0.1 !is MarkRead);
    let evs1 = evs.drop_first();
    let rest1 = msg_actions(self_addr, ctx, step0.0, evs1);
    lemma_count_cons(step0.1, rest1);
    let to_all = step0.0->AwaitingDraft_to_all;
    let cc_all = step0.0->AwaitingDraft_cc_all;
    if evs1.len() == 0 {
    } else {
        let step1 = msg_step_spec(self_addr, ctx, step0.0, evs1[0]);
        let evs2 = evs1.drop_first();
        let rest2 = msg_actions(self_addr, ctx, step1.0, evs2);
        lemma_count_cons(step1.1, rest2);
        assert(evs1[0] == evs[1]);
        if evs1[0] matches Event::ModelText(Ok(_)) {
            assert(step1.0 == SpecMsgPhase::AwaitingCreate);
            assert(step1.1 is CreateDraft);
            lemma_create_counts(self_addr, ctx, evs2);
            assert forall|k: int| 0 <= k < evs2.len() implies evs2[k] == evs[k + 2] by {}
            if evs.len() >= 3 && (evs[2] matches Event::DraftCreated(Ok(_))) {
                assert(evs2[0] == evs[2]);
                assert(rest2[0] is MarkRead);
            }
        } else if evs1[0] matches Event::ModelText(Err(_)) {
            assert(step1.0 == SpecMsgPhase::MsgDone);
            lemma_done_all_finish(self_addr, ctx, evs2);
            lemma_counts_zero_of_finish(rest2);
        } else {
            assert(step1.0 == SpecMsgPhase::MsgDone);
            lemma_done_all_finish(self_addr, ctx, evs2);
            lemma_counts_zero_of_finish(rest2);
        }
    }
}

/// One transition of the message machine: from the phase and the event to
/// the next phase, the host's next action, and the transcript lines —
/// exactly as `msg_step_spec` says.
pub fn step_message(self_addr: &str, ctx: &MsgCtx, phase: MsgPhase, ev: Event) -> (r: MsgStep)
    ensures
        r.next@ == msg_step_spec(self_addr@, ctx@, phase@, ev).0,
        r.action@ == msg_step_spec(self_addr@, ctx@, phase@, ev).1,
        views_of(r.logs@) == msg_step_spec(self_addr@, ctx@, phase@, ev).2,
{
    match (phase, ev) {
        (MsgPhase::AwaitingVerdict, Event::ModelText(res)) => handle_verdict(self_addr, ctx, res),
        (MsgPhase::AwaitingDraft { to_all, cc_all }, Event::ModelText(res)) => handle_draft(
            self_addr,
            ctx,
            to_all,
            cc_all,
            res,
        ),
        (MsgPhase::AwaitingCreate, Event::DraftCreated(res)) => handle_create(self_addr, ctx, res),
        (MsgPhase::AwaitingMarkRead, Event::MarkedRead(res)) => handle_mark_read(
            self_addr,
            ctx,
            res,
        ),
        (MsgPhase::AwaitingKeywords, Event::ModelText(res)) => handle_keywords(self_addr, ctx, res),
        (MsgPhase::AwaitingSearch, Event::FilesFound(res)) => handle_search(self_addr, ctx, res),
        (MsgPhase::AwaitingDownload { filename, mime_type }, Event::FileBytes(res)) => handle_download(
            self_addr,
            ctx,
            filename,
            mime_type,
            res,
        ),
        (MsgPhase::AwaitingFileDraft { to_all, cc_all, attachment }, Event::ModelText(res)) => handle_file_draft(
            self_addr,
            ctx,
            to_all,
            cc_all,
            attachment,
            res,
        ),
        (_, _) => {
            let r = MsgStep {
                next: MsgPhase::MsgDone,
                action: MsgAction::Finish,
                logs: Vec::new(),
            };
            proof {
                assert(views_of(r.logs@) =~= Seq::<Seq<char>>::empty());
            }
            r
        },
    }
}

/// Where the whole run stands.
pub enum RunPhase {
    /// The bootstrap refresh token is being read.
    LoadingToken,
    /// The token exchange is under way.
    Authenticating,
    /// The unread-message listing is under way.
    Listing,
    /// Message `idx` of `ids` is being fetched.
    Fetching { ids: Vec<MessageId>, idx: usize },
    /// Message `idx` of `ids` is in the hands of the message machine.
    InMessage { ids: Vec<MessageId>, idx: usize, ctx: MsgCtx, mphase: MsgPhase },
    /// The run is over and the response has been chosen.
    Responded,
}

/// The mathematical value of a run phase.
pub ghost enum SpecRunPhase {
    LoadingToken,
    Authenticating,
    Listing,
    Fetching { ids: Seq<MessageId>, idx: int },
    InMessage { ids: Seq<MessageId>, idx: int, ctx: SpecMsgCtx, mphase: SpecMsgPhase },
    Responded,
}

impl View for RunPhase {
    type V = SpecRunPhase;

    open spec fn view(&self) -> SpecRunPhase {
        match self {
            RunPhase::LoadingToken => SpecRunPhase::LoadingToken,
            RunPhase::Authenticating => SpecRunPhase::Authenticating,
            RunPhase::Listing => SpecRunPhase::Listing,
            RunPhase::Fetching { ids, idx } => SpecRunPhase::Fetching {
                ids: ids@,
                idx: *idx as int,
            },
            RunPhase::InMessage { ids, idx, ctx, mphase } => SpecRunPhase::InMessage {
                ids: ids@,
                idx: *idx as int,
                ctx: ctx@,
                mphase: mphase@,
            },
            RunPhase::Responded => SpecRunPhase::Responded,
        }
    }
}

/// The one outside call the host must perform next for the run.
pub enum Action {
    LoadRefreshToken,
    FetchToken,
    ListUnread,
    GetDetails { message_id: String },
    AskModel { prompt: String },
    CreateDraft { thread_id: String, raw: String },
    MarkRead { message_id: String },
    SearchFiles { query: String },
    DownloadFile { file_id: String },
    /// Fatal: answer with an error status and this message.
    RespondError { message: String },
    /// Done: answer with the joined transcript.
    RespondTranscript,
}

/// The mathematical value of a run action.
pub ghost enum SpecAction {
    LoadRefreshToken,
    FetchToken,
    ListUnread,
    GetDetails { message_id: Seq<char> },
    AskModel { prompt: Seq<char> },
    CreateDraft { thread_id: Seq<char>, raw: Seq<char> },
    MarkRead { message_id: Seq<char> },
    SearchFiles { query: Seq<char> },
    DownloadFile { file_id: Seq<char> },
    RespondError { message: Seq<char> },
    RespondTranscript,
}

impl View for Action {
    type V = SpecAction;

    open spec fn view(&self) -> SpecAction {
        match self {
            Action::LoadRefreshToken => SpecAction::LoadRefreshToken,
            Action::FetchToken => SpecAction::FetchToken,
            Action::ListUnread => SpecAction::ListUnread,
            Action::GetDetails { message_id } => SpecAction::GetDetails {
                message_id: message_id@,
            },
            Action::AskModel { prompt } => SpecAction::AskModel { prompt: prompt@ },
            Action::CreateDraft { thread_id, raw } => SpecAction::CreateDraft {
                thread_id: thread_id@,
                raw: raw@,
            },
            Action::MarkRead { message_id } => SpecAction::MarkRead { message_id: message_id@ },
            Action::SearchFiles { query } => SpecAction::SearchFiles { query: query@ },
            Action::DownloadFile { file_id } => SpecAction::DownloadFile { file_id: file_id@ },
            Action::RespondError { message } => SpecAction::RespondError { message: message@ },
            Action::RespondTranscript => SpecAction::RespondTranscript,
        }
    }
}

/// One run-machine transition.
pub struct RunStep {
    pub next: RunPhase,
    pub action: Action,
    pub logs: Vec<String>,
}

/// A message action, seen at run level; the message machine's `Finish`
/// never reaches the host (the run machine advances instead).
pub open spec fn spec_lift_action(a: SpecMsgAction) -> SpecAction {
    match a {
        SpecMsgAction::AskModel { prompt } => SpecAction::AskModel { prompt },
        SpecMsgAction::CreateDraft { thread_id, raw } => SpecAction::CreateDraft {
            thread_id,
            raw,
        },
        SpecMsgAction::MarkRead { message_id } => SpecAction::MarkRead { message_id },
        SpecMsgAction::SearchFiles { query } => SpecAction::SearchFiles { query },
        SpecMsgAction::DownloadFile { file_id } => SpecAction::DownloadFile { file_id },
        SpecMsgAction::Finish => SpecAction::RespondTranscript,
    }
}

/// After one message: fetch the next one, or answer with the transcript
/// when none is left.
pub open spec fn spec_advance(ids: Seq<MessageId>, idx: int) -> (SpecRunPhase, SpecAction) {
    if idx + 1 < ids.len() {
        (
            SpecRunPhase::Fetching { ids, idx: idx + 1 },
            SpecAction::GetDetails { message_id: ids[idx + 1].id@ },
        )
    } else {
        (SpecRunPhase::Responded, SpecAction::RespondTranscript)
    }
}

/// The value of the header named `name`, or `default` when it is missing.
pub open spec fn spec_header_or(
    hs: Seq<crate::models::MessagePartHeaders>,
    name: Seq<char>,
    default: Seq<char>,
) -> Seq<char> {
    match crate::models::spec_header_value(hs, name) {
        Some(v) => v,
        None => default,
    }
}

/// The extracted body of a part tree, as text.
pub open spec fn spec_body_text(p: crate::models::MessagePart) -> Seq<char> {
    match crate::extract::first_plain_text(p) {
        Some(d) => match crate::b64::urlsafe_decoded_text(d) {
            Some(t) => t,
            None => "Could not decode body."@,
        },
        None => "No plain text body found"@,
    }
}

/// The message context the machine works on, read out of the fetched
/// details: the headers with their defaults, and the decoded body.
pub open spec fn spec_ctx_of(number: int, mid: MessageId, msg: Message) -> SpecMsgCtx {
    SpecMsgCtx {
        number,
        message_id: mid.id@,
        thread_id: mid.thread_id@,
        from: spec_header_or(msg.payload.headers@, "From"@, "Unknown Sender"@),
        to: spec_header_or(msg.payload.headers@, "To"@, ""@),
        cc: spec_header_or(msg.payload.headers@, "Cc"@, ""@),
        subject: spec_header_or(msg.payload.headers@, "Subject"@, "No Subject"@),
        body: spec_body_text(msg.payload),
    }
}

/// The run machine, as a mathematical function.  An event that does not
/// belong to the phase ends the run with the transcript.
pub open spec fn run_step_spec(self_addr: Seq<char>, phase: SpecRunPhase, ev: Event) -> (
    SpecRunPhase,
    SpecAction,
    Seq<Seq<char>>,
) {
    match (phase, ev) {
        (SpecRunPhase::LoadingToken, Event::RefreshToken(opt)) => match opt {
            Some(_) => (SpecRunPhase::Authenticating, SpecAction::FetchToken, Seq::empty()),
            None => (
                SpecRunPhase::Responded,
                SpecAction::RespondError { message: "FATAL: Refresh token not found."@ },
                Seq::empty(),
            ),
        },
        (SpecRunPhase::Authenticating, Event::TokenResult(res)) => match res {
            Ok(_) => (
                SpecRunPhase::Listing,
                SpecAction::ListUnread,
                seq!["Successfully authenticated with Google."@, "Checking for unread emails..."@],
            ),
            Err(e) => (
                SpecRunPhase::Responded,
                SpecAction::RespondError { message: "Failed to get access token: "@ + e@ },
                Seq::empty(),
            ),
        },
        (SpecRunPhase::Listing, Event::ListResult(res)) => match res {
            Ok(resp) => {
                let ids = match resp.messages {
                    Some(v) => v@,
                    None => Seq::empty(),
                };
                if ids.len() == 0 {
                    (
                        SpecRunPhase::Responded,
                        SpecAction::RespondTranscript,
                        seq!["No unread emails found."@],
                    )
                } else {
                    (
                        SpecRunPhase::Fetching { ids, idx: 0 },
                        SpecAction::GetDetails { message_id: ids[0].id@ },
                        seq![
                            "Found "@ + dec_str(ids.len()) + " unread email(s). Fetching details..."@,
                        ],
                    )
                }
            },
            Err(e) => (
                SpecRunPhase::Responded,
                SpecAction::RespondError { message: "Failed to fetch emails: "@ + e@ },
                Seq::empty(),
            ),
        },
        (SpecRunPhase::Fetching { ids, idx }, Event::DetailsResult(res)) => {
            if !(0 <= idx && idx < ids.len()) {
                (SpecRunPhase::Responded, SpecAction::RespondTranscript, Seq::empty())
            } else {
                match res {
                    Ok(msg) => {
                        let c = spec_ctx_of(idx + 1, ids[idx], msg);
                        (
                            SpecRunPhase::InMessage {
                                ids,
                                idx,
                                ctx: c,
                                mphase: SpecMsgPhase::AwaitingVerdict,
                            },
                            SpecAction::AskModel {
                                prompt: crate::prompts::classification_prompt_spec(
                                    c.from,
                                    c.subject,
                                    c.body,
                                ),
                            },
                            Seq::empty(),
                        )
                    },
                    Err(e) => {
                        let a = spec_advance(ids, idx);
                        (
                            a.0,
                            a.1,
                            seq![
                                "Error fetching details for message "@ + ids[idx].id@ + ": "@ + e@,
                            ],
                        )
                    },
                }
            }
        },
        (SpecRunPhase::InMessage { ids, idx, ctx, mphase }, ev) => {
            if !(0 <= idx && idx < ids.len()) {
                (SpecRunPhase::Responded, SpecAction::RespondTranscript, Seq::empty())
            } else {
                let m = msg_step_spec(self_addr, ctx, mphase, ev);
                if m.1 is Finish {
                    let a = spec_advance(ids, idx);
                    (a.0, a.1, m.2)
                } else {
                    (
                        SpecRunPhase::InMessage { ids, idx, ctx, mphase: m.0 },
                        spec_lift_action(m.1),
                        m.2,
                    )
                }
            }
        },
        _ => (SpecRunPhase::Responded, SpecAction::RespondTranscript, Seq::empty()),
    }
}

/// A run phase is well formed when the message index stays inside the
/// listing.
pub open spec fn run_phase_wf(phase: SpecRunPhase) -> bool {
    match phase {
        SpecRunPhase::Fetching { ids, idx } => 0 <= idx < ids.len(),
        SpecRunPhase::InMessage { ids, idx, .. } => 0 <= idx < ids.len(),
        _ => true,
    }
}

/// The run machine preserves well-formedness: however it is driven from a
/// well-formed phase, the message index never leaves the listing.
pub proof fn lemma_run_wf_preserved(self_addr: Seq<char>, phase: SpecRunPhase, ev: Event)
    requires
        run_phase_wf(phase),
    ensures
        run_phase_wf(run_step_spec(self_addr, phase, ev).0),
{
}

/// Begin a run: the first log line, and the host is to read the refresh
/// token from the secret store.
pub fn run_init() -> (r: RunStep)
    ensures
        r.next@ == SpecRunPhase::LoadingToken,
        r.action@ == SpecAction::LoadRefreshToken,
        views_of(r.logs@) == seq!["Fetch event started!"@],
{
    let mut logs: Vec<String> = Vec::new();
    logs.push("Fetch event started!".to_owned());
    proof {
        assert(views_of(logs@) =~= seq!["Fetch event started!"@]);
    }
    RunStep { next: RunPhase::LoadingToken, action: Action::LoadRefreshToken, logs }
}

fn empty_logs() -> (r: Vec<String>)
    ensures
        views_of(r@) == Seq::<Seq<char>>::empty(),
{
    let r: Vec<String> = Vec::new();
    proof {
        assert(views_of(r@) =~= Seq::<Seq<char>>::empty());
    }
    r
}

fn one_log(line: String) -> (r: Vec<String>)
    ensures
        views_of(r@) == seq![line@],
{
    let ghost l = line@;
    let mut r: Vec<String> = Vec::new();
    r.push(line);
    proof {
        assert(views_of(r@) =~= seq![l]);
    }
    r
}

fn advance(ids: Vec<MessageId>, idx: usize, logs: Vec<String>) -> (r: RunStep)
    requires
        idx < ids@.len(),
    ensures
        r.next@ == spec_advance(ids@, idx as int).0,
        r.action@ == spec_advance(ids@, idx as int).1,
        r.logs == logs,
{
    let n = ids.len();
    if idx + 1 < n {
        let next_id = dup_str(&ids[idx + 1].id);
        RunStep {
            next: RunPhase::Fetching { ids, idx: idx + 1 },
            action: Action::GetDetails { message_id: next_id },
            logs,
        }
    } else {
        RunStep { next: RunPhase::Responded, action: Action::RespondTranscript, logs }
    }
}

/// Read the message context out of fetched details: each header by exact
/// name with its default, and the body extracted and decoded.
pub fn build_ctx(number: u64, mid: &MessageId, msg: &Message) -> (c: MsgCtx)
    ensures
        c@ == spec_ctx_of(number as int, *mid, *msg),
{
    MsgCtx {
        number,
        message_id: dup_str(&mid.id),
        thread_id: dup_str(&mid.thread_id),
        from: crate::models::header_or(&msg.payload.headers, "From", "Unknown Sender"),
        to: crate::models::header_or(&msg.payload.headers, "To", ""),
        cc: crate::models::header_or(&msg.payload.headers, "Cc", ""),
        subject: crate::models::header_or(&msg.payload.headers, "Subject", "No Subject"),
        body: crate::extract::extract_body_text(&msg.payload),
    }
}

/// One transition of the run machine — exactly as `run_step_spec` says.
pub fn step_run(self_addr: &str, phase: RunPhase, ev: Event) -> (r: RunStep)
    ensures
        r.next@ == run_step_spec(self_addr@, phase@, ev).0,
        r.action@ == run_step_spec(self_addr@, phase@, ev).1,
        views_of(r.logs@) == run_step_spec(self_addr@, phase@, ev).2,
{
    match (phase, ev) {
        (RunPhase::LoadingToken, Event::RefreshToken(opt)) => match opt {
            Some(_) => RunStep {
                next: RunPhase::Authenticating,
                action: Action::FetchToken,
                logs: empty_logs(),
            },
            None => RunStep {
                next: RunPhase::Responded,
                action: Action::RespondError {
                    message: "FATAL: Refresh token not found.".to_owned(),
                },
                logs: empty_logs(),
            },
        },
        (RunPhase::Authenticating, Event::TokenResult(res)) => match res {
            Ok(_) => {
                let mut logs: Vec<String> = Vec::new();
                logs.push("Successfully authenticated with Google.".to_owned());
                logs.push("Checking for unread emails...".to_owned());
                proof {
                    assert(views_of(logs@) =~= seq![
                        "Successfully authenticated with Google."@,
                        "Checking for unread emails..."@,
                    ]);
                }
                RunStep { next: RunPhase::Listing, action: Action::ListUnread, logs }
            },
            Err(e) => RunStep {
                next: RunPhase::Responded,
                action: Action::RespondError {
                    message: concat2("Failed to get access token: ", e.as_str()),
                },
                logs: empty_logs(),
            },
        },
        (RunPhase::Listing, Event::ListResult(res)) => match res {
            Ok(resp) => {
                let ids = crate::models::message_ids(resp);
                if ids.len() == 0 {
                    RunStep {
                        next: RunPhase::Responded,
                        action: Action::RespondTranscript,
                        logs: one_log("No unread emails found.".to_owned()),
                    }
                } else {
                    let count = u64_to_dec(ids.len() as u64);
                    let line = concat3(
                        "Found ",
                        count.as_str(),
                        " unread email(s). Fetching details...",
                    );
                    let first_id = dup_str(&ids[0].id);
                    RunStep {
                        next: RunPhase::Fetching { ids, idx: 0 },
                        action: Action::GetDetails { message_id: first_id },
                        logs: one_log(line),
                    }
                }
            },
            Err(e) => RunStep {
                next: RunPhase::Responded,
                action: Action::RespondError {
                    message: concat2("Failed to fetch emails: ", e.as_str()),
                },
                logs: empty_logs(),
            },
        },
        (RunPhase::Fetching { ids, idx }, Event::DetailsResult(res)) => {
            if idx >= ids.len() {
                RunStep {
                    next: RunPhase::Responded,
                    action: Action::RespondTranscript,
                    logs: empty_logs(),
                }
            } else {
                match res {
                    Ok(msg) => {
                        let number = (idx + 1) as u64;
                        let ctx = build_ctx(number, &ids[idx], &msg);
                        let prompt = crate::prompts::get_classification_prompt(
                            ctx.from.as_str(),
                            ctx.subject.as_str(),
                            ctx.body.as_str(),
                        );
                        RunStep {
                            next: RunPhase::InMessage {
                                ids,
                                idx,
                                ctx,
                                mphase: MsgPhase::AwaitingVerdict,
                            },
                            action: Action::AskModel { prompt },
                            logs: empty_logs(),
                        }
                    },
                    Err(e) => {
                        let line = crate::strutil::concat4(
                            "Error fetching details for message ",
                            ids[idx].id.as_str(),
                            ": ",
                            e.as_str(),
                        );
                        advance(ids, idx, one_log(line))
                    },
                }
            }
        },
        (RunPhase::InMessage { ids, idx, ctx, mphase }, mev) => {
            if idx >= ids.len() {
                RunStep {
                    next: RunPhase::Responded,
                    action: Action::RespondTranscript,
                    logs: empty_logs(),
                }
            } else {
                let m = step_message(self_addr, &ctx, mphase, mev);
                match m.action {
                    MsgAction::Finish => advance(ids, idx, m.logs),
                    MsgAction::AskModel { prompt } => RunStep {
                        next: RunPhase::InMessage { ids, idx, ctx, mphase: m.next },
                        action: Action::AskModel { prompt },
                        logs: m.logs,
                    },
                    MsgAction::CreateDraft { thread_id, raw } => RunStep {
                        next: RunPhase::InMessage { ids, idx, ctx, mphase: m.next },
                        action: Action::CreateDraft { thread_id, raw },
                        logs: m.logs,
                    },
                    MsgAction::MarkRead { message_id } => RunStep {
                        next: RunPhase::InMessage { ids, idx, ctx, mphase: m.next },
                        action: Action::MarkRead { message_id },
                        logs: m.logs,
                    },
                    MsgAction::SearchFiles { query } => RunStep {
                        next: RunPhase::InMessage { ids, idx, ctx, mphase: m.next },
                        action: Action::SearchFiles { query },
                        logs: m.logs,
                    },
                    MsgAction::DownloadFile { file_id } => RunStep {
                        next: RunPhase::InMessage { ids, idx, ctx, mphase: m.next },
                        action: Action::DownloadFile { file_id },
                        logs: m.logs,
                    },
                }
            }
        },
        (_, _) => RunStep {
            next: RunPhase::Responded,
            action: Action::RespondTranscript,
            logs: empty_logs(),
        },
    }
}

} // verus!
