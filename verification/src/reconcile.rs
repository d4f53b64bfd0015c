//! One reconciliation cycle: discover the public address, look at the
//! managed record, and update the record only where it has drifted.
//!
//! The cycle is a machine that never performs a request itself. It is handed
//! the stage that the cycle has reached, together with what the last request
//! brought back, and answers with the next request to send, or with the
//! cycle's outcome.

use vstd::prelude::*;
use crate::cloudflare::{
    get_request, only, patch_request, records_url, reported_address, trace_request,
    CloudflareClient,
};
use crate::error::ClientError;
use crate::exchange::{judged, Exchange, HttpRequest, HttpRequestView};
use crate::model::{DnsRecord, DnsRecordView};

verus! {

/// The comment that tags a record as maintained by this updater.
pub const MARKER: &'static str = "Maintained by cfdydns";

/// The text of `MARKER`.
pub open spec fn marker() -> Seq<char> {
    "Maintained by cfdydns"@
}

/// Whether a record needs no update: it points at `public_ip` and carries
/// the marker.
pub open spec fn up_to_date(record: DnsRecordView, public_ip: Seq<char>) -> bool {
    record.content == public_ip && record.comment == marker()
}

/// Decides whether `record` already points at `public_ip` and is tagged as
/// maintained by this updater.
pub fn is_up_to_date(record: &DnsRecord, public_ip: &str) -> (current: bool)
    ensures
        current == up_to_date(record@, public_ip@),
{
    let wanted = public_ip.to_owned();
    let tag = MARKER.to_owned();
    record.content == wanted && record.comment == tag
}

/// How a cycle ended.
#[derive(Debug)]
pub enum Outcome {
    /// The record already pointed at the public address.
    UpToDate,
    /// The record was updated to point at `public_ip`.
    Updated { public_ip: String },
    /// The cycle was given up.
    Failed(ClientError),
}

/// An outcome as plain values.
pub enum OutcomeView {
    UpToDate,
    Updated { public_ip: Seq<char> },
    Failed(ClientError),
}

impl View for Outcome {
    type V = OutcomeView;

    open spec fn view(&self) -> OutcomeView {
        match self {
            Outcome::UpToDate => OutcomeView::UpToDate,
            Outcome::Updated { public_ip } => OutcomeView::Updated { public_ip: public_ip@ },
            Outcome::Failed(e) => OutcomeView::Failed(*e),
        }
    }
}

/// Where a cycle stands, with what the last request brought back.
#[derive(Debug)]
pub enum Stage {
    /// Nothing has been sent yet.
    Start,
    /// The trace page was asked for; `page` is its body, or `None` where it
    /// could not be fetched.
    Address { page: Option<String> },
    /// The record was asked for, the public address being `public_ip`.
    Record { public_ip: String, found: Exchange<Vec<DnsRecord>> },
    /// The update to `public_ip` was sent.
    Update { public_ip: String, patched: Exchange<DnsRecord> },
}

/// A stage as plain values.
pub enum StageView {
    Start,
    Address { page: Option<Seq<char>> },
    Record { public_ip: Seq<char>, found: Exchange<Seq<DnsRecordView>> },
    Update { public_ip: Seq<char>, patched: Exchange<DnsRecordView> },
}

impl View for Stage {
    type V = StageView;

    open spec fn view(&self) -> StageView {
        match self {
            Stage::Start => StageView::Start,
            Stage::Address { page } => StageView::Address { page: page.deep_view() },
            Stage::Record { public_ip, found } => StageView::Record {
                public_ip: public_ip@,
                found: found.deep_view(),
            },
            Stage::Update { public_ip, patched } => StageView::Update {
                public_ip: public_ip@,
                patched: patched.deep_view(),
            },
        }
    }
}

/// What the cycle asks for next.
#[derive(Debug)]
pub enum Next {
    /// Send the request and come back with `Stage::Address`.
    FetchAddress(HttpRequest),
    /// Send `request` and come back with `Stage::Record`, handing
    /// `public_ip` back.
    FetchRecord { request: HttpRequest, public_ip: String },
    /// Send `request`, which changes the record, and come back with
    /// `Stage::Update`, handing `public_ip` back.
    PatchRecord { request: HttpRequest, public_ip: String },
    /// The cycle is over.
    Done(Outcome),
}

/// A next step as plain values.
pub enum NextView {
    FetchAddress(HttpRequestView),
    FetchRecord { request: HttpRequestView, public_ip: Seq<char> },
    PatchRecord { request: HttpRequestView, public_ip: Seq<char> },
    Done(OutcomeView),
}

impl View for Next {
    type V = NextView;

    open spec fn view(&self) -> NextView {
        match self {
            Next::FetchAddress(request) => NextView::FetchAddress(request@),
            Next::FetchRecord { request, public_ip } => NextView::FetchRecord {
                request: request@,
                public_ip: public_ip@,
            },
            Next::PatchRecord { request, public_ip } => NextView::PatchRecord {
                request: request@,
                public_ip: public_ip@,
            },
            Next::Done(outcome) => NextView::Done(outcome@),
        }
    }
}

/// What a reconciler works with, as plain values.
pub struct ReconcilerView {
    /// The credential presented to the provider.
    pub token: Seq<char>,
    /// The identifier of the zone that holds the record.
    pub zone_id: Seq<char>,
    /// The name of the managed record.
    pub fqdn: Seq<char>,
}

/// The one record that the answer to a listing holds.
pub open spec fn listed_record(found: Exchange<Seq<DnsRecordView>>) -> Result<
    DnsRecordView,
    ClientError,
> {
    match judged(found) {
        Ok(records) => only(records),
        Err(e) => Err(e),
    }
}

impl ReconcilerView {
    /// The step that follows `stage`.
    pub open spec fn next_of(self, stage: StageView) -> NextView {
        match stage {
            StageView::Start => NextView::FetchAddress(trace_request()),
            StageView::Address { page } => match reported_address(page) {
                Ok(public_ip) => NextView::FetchRecord {
                    request: get_request(self.token, records_url(self.zone_id, self.fqdn)),
                    public_ip,
                },
                Err(e) => NextView::Done(OutcomeView::Failed(e)),
            },
            StageView::Record { public_ip, found } => match listed_record(found) {
                Ok(record) => if up_to_date(record, public_ip) {
                    NextView::Done(OutcomeView::UpToDate)
                } else {
                    NextView::PatchRecord {
                        request: patch_request(
                            self.token,
                            self.zone_id,
                            record.id,
                            public_ip,
                            marker(),
                        ),
                        public_ip,
                    }
                },
                Err(e) => NextView::Done(OutcomeView::Failed(e)),
            },
            StageView::Update { public_ip, patched } => match judged(patched) {
                Ok(_) => NextView::Done(OutcomeView::Updated { public_ip }),
                Err(e) => NextView::Done(OutcomeView::Failed(e)),
            },
        }
    }

    /// Whether the step that follows `stage` changes the record.
    pub open spec fn issues_update(self, stage: StageView) -> bool {
        self.next_of(stage) is PatchRecord
    }
}

/// Whether `stage` is what a caller comes back with after `next`: the stage
/// that `next` names, with the address that `next` handed out.
pub open spec fn answers(next: NextView, stage: StageView) -> bool {
    match next {
        NextView::FetchAddress(_) => stage is Address,
        NextView::FetchRecord { public_ip, .. } => stage is Record && stage->Record_public_ip
            == public_ip,
        NextView::PatchRecord { public_ip, .. } => stage is Update && stage->Update_public_ip
            == public_ip,
        NextView::Done(_) => false,
    }
}

/// Whether `stages` are the stages of one cycle, in order: the cycle begins
/// at `Start`, and each later stage answers the step that followed the stage
/// before it.
pub open spec fn is_cycle(ctx: ReconcilerView, stages: Seq<StageView>) -> bool {
    &&& stages.len() > 0
    &&& stages[0] is Start
    &&& forall|i: int|
        1 <= i < stages.len() ==> answers(ctx.next_of(stages[i - 1]), #[trigger] stages[i])
}

/// The machine that runs reconciliation cycles for one record.
#[derive(Debug)]
pub struct Reconciler {
    client: CloudflareClient,
    zone_id: String,
    fqdn: String,
}

impl View for Reconciler {
    type V = ReconcilerView;

    closed spec fn view(&self) -> ReconcilerView {
        ReconcilerView { token: self.client.token(), zone_id: self.zone_id@, fqdn: self.fqdn@ }
    }
}

impl Reconciler {
    /// A reconciler for the A record named `fqdn` in the zone `zone_id`.
    pub fn new(client: CloudflareClient, zone_id: String, fqdn: String) -> (reconciler: Self)
        ensures
            reconciler@ == (ReconcilerView {
                token: client.token(),
                zone_id: zone_id@,
                fqdn: fqdn@,
            }),
    {
        Reconciler { client, zone_id, fqdn }
    }

    /// Takes the cycle one step further: from the stage that was reached to
    /// the next request, or to the outcome.
    pub fn advance(&self, stage: Stage) -> (next: Next)
        ensures
            next@ == self@.next_of(stage@),
    {
        match stage {
            Stage::Start => Next::FetchAddress(self.client.public_ip_request()),
            Stage::Address { page } => match self.client.get_public_ip_address(page) {
                Ok(public_ip) => Next::FetchRecord {
                    request: self.client.a_record_request(
                        self.zone_id.as_str(),
                        self.fqdn.as_str(),
                    ),
                    public_ip,
                },
                Err(e) => Next::Done(Outcome::Failed(e)),
            },
            Stage::Record { public_ip, found } => match self.client.get_a_record(found) {
                Ok(record) => {
                    if is_up_to_date(&record, public_ip.as_str()) {
                        Next::Done(Outcome::UpToDate)
                    } else {
                        let request = self.client.update_request(
                            self.zone_id.as_str(),
                            record.id.as_str(),
                            public_ip.as_str(),
                            MARKER,
                        );
                        Next::PatchRecord { request, public_ip }
                    }
                },
                Err(e) => Next::Done(Outcome::Failed(e)),
            },
            Stage::Update { public_ip, patched } => match self.client.update_a_record(patched) {
                Ok(_) => Next::Done(Outcome::Updated { public_ip }),
                Err(e) => Next::Done(Outcome::Failed(e)),
            },
        }
    }
}

/// The stages of a cycle come in one order: start, address, record, update.
/// The record stage is handed the address that the trace page reported, and
/// the update stage the same address. Only the step that follows the record
/// stage can change the record, so a cycle changes it at most once.
pub proof fn lemma_cycle_updates_at_most_once(ctx: ReconcilerView, stages: Seq<StageView>)
    requires
        is_cycle(ctx, stages),
    ensures
        stages.len() <= 4,
        stages.len() > 1 ==> stages[1] is Address,
        stages.len() > 2 ==> {
            &&& stages[2] matches StageView::Record { public_ip, .. }
            &&& reported_address(stages[1]->page) matches Ok(reported)
            &&& reported == public_ip
        },
        stages.len() > 3 ==> {
            &&& stages[3] matches StageView::Update { public_ip, .. }
            &&& public_ip == stages[2]->Record_public_ip
        },
        forall|i: int| 0 <= i < stages.len() && ctx.issues_update(#[trigger] stages[i]) ==> i == 2,
{
    if stages.len() > 1 {
        assert(answers(ctx.next_of(stages[0]), stages[1]));
    }
    if stages.len() > 2 {
        assert(answers(ctx.next_of(stages[1]), stages[2]));
    }
    if stages.len() > 3 {
        assert(answers(ctx.next_of(stages[2]), stages[3]));
    }
    if stages.len() > 4 {
        assert(answers(ctx.next_of(stages[3]), stages[4]));
    }
}

/// Where the record that a cycle finds points at the public address and
/// carries the marker, the cycle ends there, and no step of it changes the
/// record.
pub proof fn lemma_current_record_is_left_alone(
    ctx: ReconcilerView,
    stages: Seq<StageView>,
    record: DnsRecordView,
)
    requires
        is_cycle(ctx, stages),
        stages.len() > 2,
        stages[2] is Record,
        listed_record(stages[2]->found) matches Ok(listed) && listed == record,
        record.content == stages[2]->Record_public_ip,
        record.comment == marker(),
    ensures
        stages.len() == 3,
        reported_address(stages[1]->page) matches Ok(reported) && reported == record.content,
        ctx.next_of(stages[2]) == NextView::Done(OutcomeView::UpToDate),
        forall|i: int| 0 <= i < stages.len() ==> !ctx.issues_update(#[trigger] stages[i]),
{
    lemma_cycle_updates_at_most_once(ctx, stages);
}

/// Where the record that a cycle finds points elsewhere than at the public
/// address, or does not carry the marker, exactly one step of the cycle
/// changes the record: the one that follows the record stage. It sets the
/// content to the public address and the comment to the marker.
pub proof fn lemma_drifted_record_is_updated_once(
    ctx: ReconcilerView,
    stages: Seq<StageView>,
    record: DnsRecordView,
)
    requires
        is_cycle(ctx, stages),
        stages.len() > 2,
        stages[2] is Record,
        listed_record(stages[2]->found) matches Ok(listed) && listed == record,
        record.content != stages[2]->Record_public_ip || record.comment != marker(),
    ensures
        reported_address(stages[1]->page) matches Ok(reported) && reported
            == stages[2]->Record_public_ip,
        ctx.next_of(stages[2]) == (NextView::PatchRecord {
            request: patch_request(
                ctx.token,
                ctx.zone_id,
                record.id,
                stages[2]->Record_public_ip,
                marker(),
            ),
            public_ip: stages[2]->Record_public_ip,
        }),
        forall|i: int|
            0 <= i < stages.len() ==> (ctx.issues_update(#[trigger] stages[i]) <==> i == 2),
{
    lemma_cycle_updates_at_most_once(ctx, stages);
}

/// A record that holds what an update sets is up to date for the address
/// that the update was made for: while the address stays, the next cycle
/// finds nothing to change.
pub proof fn lemma_updated_record_is_current(
    ctx: ReconcilerView,
    record: DnsRecordView,
    public_ip: Seq<char>,
    updated: DnsRecordView,
)
    requires
        patch_request(ctx.token, ctx.zone_id, record.id, public_ip, marker()).body matches Some(
            update,
        ) && updated.content == update.content && updated.comment == update.comment,
    ensures
        up_to_date(updated, public_ip),
{
}

} // verus!
