//! The job declarator: it collects tokens, declares a job for every template,
//! pairs the pool's answers with the declared jobs and hands custom jobs to the
//! mining upstream.
use vstd::prelude::*;

use std::collections::HashMap;

use nohash_hasher::BuildNoHashHasher;

use crate::chain;
use crate::jd_client::messages;
use crate::jd_client::messages::{
    AllocateMiningJobToken, AllocateMiningJobTokenSuccess, CustomJob, CustomJobView,
    DeclareMiningJob, DeclareMiningJobView, FutureJob, FutureJobView, LastDeclareJob,
    LastDeclareJobView, NewTemplate, NewTemplateView, SetNewPrevHash, SetNewPrevHashView,
    SubmitSolutionJd,
};
use crate::mining::SubmitSharesExtended;
use crate::text;
use crate::text::{copy_bytes, copy_list};

verus! {

/// How many declared jobs are remembered at most.
pub const MAX_DECLARED_JOBS: usize = 10;

/// The nonce of the short transaction hashes.
pub const TX_SHORT_HASH_NONCE: u64 = 0;

/// The accepted jobs that wait for their previous hash, by template id.
pub type FutureJobs = HashMap<u64, FutureJob, BuildNoHashHasher<u64>>;

/// `nohash_hasher::NoHashHasher`, the identity hasher of the future jobs.
#[verifier::external_type_specification]
#[verifier::external_body]
#[verifier::reject_recursive_types(T)]
pub struct ExNoHashHasher<T>(nohash_hasher::NoHashHasher<T>);

/// `std::hash::BuildHasherDefault`, which makes hashers by `Default`.
#[verifier::external_type_specification]
#[verifier::external_body]
#[verifier::reject_recursive_types(H)]
pub struct ExBuildHasherDefault<H>(std::hash::BuildHasherDefault<H>);

/// `HashMap::with_hasher` with `nohash_hasher::BuildNoHashHasher`: a map that
/// holds nothing.
#[verifier::external_body]
fn no_future_jobs() -> (r: FutureJobs)
    ensures
        (r@ == Map::<u64, FutureJob>::empty()),
{
    HashMap::with_hasher(BuildNoHashHasher::default())
}

/// `HashMap::insert` on a map that hashes its `u64` keys with
/// `nohash_hasher::NoHashHasher`: the key then leads to the given job, the other
/// keys lead where they led.
#[verifier::external_body]
fn put_future_job(jobs: &mut FutureJobs, template_id: u64, job: FutureJob)
    ensures
        final(jobs)@ == old(jobs)@.insert(template_id, job),
{
    jobs.insert(template_id, job);
}

/// `HashMap::remove` on a map that hashes its `u64` keys with
/// `nohash_hasher::NoHashHasher`: the key is gone, and the job it led to is handed
/// out where there was one.
#[verifier::external_body]
fn take_future_job(jobs: &mut FutureJobs, template_id: u64) -> (r: Option<FutureJob>)
    ensures
        final(jobs)@ == old(jobs)@.remove(template_id),
        r == (if old(jobs)@.contains_key(template_id) {
            Some(old(jobs)@[template_id])
        } else {
            None::<FutureJob>
        }),
{
    jobs.remove(&template_id)
}

/// The state of the job declarator.
#[derive(Debug)]
pub struct JobDeclarator {
    /// The tokens that were allocated and not used yet.
    pub allocated_tokens: Vec<AllocateMiningJobTokenSuccess>,
    /// The request id that was given out last.
    pub req_ids: u32,
    pub min_extranonce_size: u16,
    /// The declared jobs that the pool has not answered, by request id.
    pub last_declare_mining_jobs_sent: HashMap<u32, LastDeclareJob>,
    pub last_set_new_prev_hash: Option<SetNewPrevHash>,
    /// How many previous hashes wait for their job.
    pub set_new_prev_hash_counter: u8,
    pub future_jobs: FutureJobs,
    pub coinbase_tx_prefix: Vec<u8>,
    pub coinbase_tx_suffix: Vec<u8>,
}

/// What a [`JobDeclarator`] holds.
pub struct JobDeclaratorView {
    pub allocated_tokens: Seq<AllocateMiningJobTokenSuccess>,
    pub req_ids: u32,
    pub min_extranonce_size: u16,
    pub declared: Map<u32, LastDeclareJobView>,
    pub prev_hash: Option<SetNewPrevHashView>,
    pub waiting: u8,
    pub future_jobs: Map<u64, FutureJobView>,
    pub coinbase_tx_prefix: Seq<u8>,
    pub coinbase_tx_suffix: Seq<u8>,
}

impl View for JobDeclarator {
    type V = JobDeclaratorView;

    open spec fn view(&self) -> JobDeclaratorView {
        JobDeclaratorView {
            allocated_tokens: self.allocated_tokens@,
            req_ids: self.req_ids,
            min_extranonce_size: self.min_extranonce_size,
            declared: self.last_declare_mining_jobs_sent@.map_values(|j: LastDeclareJob| j@),
            prev_hash: match self.last_set_new_prev_hash {
                Some(p) => Some(p@),
                None => None,
            },
            waiting: self.set_new_prev_hash_counter,
            future_jobs: self.future_jobs@.map_values(|j: FutureJob| j@),
            coinbase_tx_prefix: self.coinbase_tx_prefix@,
            coinbase_tx_suffix: self.coinbase_tx_suffix@,
        }
    }
}

/// Whether a key is the smallest of a map.
pub open spec fn is_smallest_key(jobs: Map<u32, LastDeclareJobView>, k: u32) -> bool {
    jobs.contains_key(k) && forall|j: u32| #[trigger] jobs.contains_key(j) ==> k <= j
}

/// The smallest key of a map that has one.
pub open spec fn smallest_key(jobs: Map<u32, LastDeclareJobView>) -> u32 {
    choose|k: u32| is_smallest_key(jobs, k)
}

impl JobDeclaratorView {
    /// The invariant of a job declarator: at most ten jobs are remembered, each
    /// under its own request id, which was given out before, and the future jobs
    /// stand under the ids of their templates, which are future templates.
    pub open spec fn wf(self) -> bool {
        &&& self.declared.dom().finite()
        &&& self.declared.len() <= MAX_DECLARED_JOBS
        &&& forall|k: u32| #[trigger]
            self.declared.contains_key(k) ==> 1 <= k <= self.req_ids
                && self.declared[k].declare_job.request_id == k
        &&& forall|id: u64| #[trigger]
            self.future_jobs.contains_key(id) ==> self.future_jobs[id].template.template_id == id
                && self.future_jobs[id].template.future_template
    }

    /// Remembering a declared job: the job with the smallest request id makes
    /// room where ten are remembered already.
    pub open spec fn remember(self, request_id: u32, j: LastDeclareJobView) -> Self {
        JobDeclaratorView {
            declared: if self.declared.len() < MAX_DECLARED_JOBS {
                self.declared.insert(request_id, j)
            } else {
                self.declared.remove(smallest_key(self.declared)).insert(request_id, j)
            },
            ..self
        }
    }

    /// The declaration that a template leads to.
    pub open spec fn declaration(
        self,
        template: NewTemplateView,
        token: Seq<u8>,
        excess_data: Seq<u8>,
        tx_short_hash_list: Seq<Seq<u8>>,
        tx_hash_list_hash: Seq<u8>,
    ) -> DeclareMiningJobView {
        DeclareMiningJobView {
            request_id: (self.req_ids + 1) as u32,
            mining_job_token: token,
            version: template.version,
            coinbase_prefix: self.coinbase_tx_prefix,
            coinbase_suffix: self.coinbase_tx_suffix,
            tx_short_hash_nonce: TX_SHORT_HASH_NONCE,
            tx_short_hash_list,
            tx_hash_list_hash,
            excess_data,
        }
    }

    /// Declaring a job takes the next request id and remembers the job under it.
    pub open spec fn declare(self, j: LastDeclareJobView) -> Self {
        (JobDeclaratorView { req_ids: (self.req_ids + 1) as u32, ..self }).remember(
            (self.req_ids + 1) as u32,
            j,
        )
    }

    /// Whether the pool's acceptance of a declared job can be acted on: the job is
    /// remembered, and where its template is already valid a previous hash is known.
    pub open spec fn can_accept(self, request_id: u32) -> bool {
        &&& self.declared.contains_key(request_id)
        &&& self.declared[request_id].template.future_template || self.prev_hash is Some
    }

    /// The pool accepted a declared job: the job is no longer outstanding, and
    /// where its template is a future one it waits, with the new token, for its
    /// previous hash.
    pub open spec fn accept(self, request_id: u32, new_token: Seq<u8>) -> Self {
        let last = self.declared[request_id];
        let rest = JobDeclaratorView { declared: self.declared.remove(request_id), ..self };
        if last.template.future_template {
            JobDeclaratorView {
                future_jobs: rest.future_jobs.insert(
                    last.template.template_id,
                    FutureJobView {
                        job: DeclareMiningJobView {
                            mining_job_token: new_token,
                            ..last.declare_job
                        },
                        template: last.template,
                        pool_outputs: last.coinbase_pool_output,
                    },
                ),
                ..rest
            }
        } else {
            rest
        }
    }

    /// The custom job that is set when the pool accepts a job whose template is
    /// already valid.
    pub open spec fn accepted_job(self, request_id: u32, new_token: Seq<u8>) -> CustomJobView {
        let last = self.declared[request_id];
        messages::custom_job_view(
            last.declare_job,
            last.template,
            last.coinbase_pool_output,
            self.prev_hash->0,
            new_token,
        )
    }

    /// A previous hash arrived: it is the latest one, and one more is waiting.
    pub open spec fn arrive(self, p: SetNewPrevHashView) -> Self {
        JobDeclaratorView {
            prev_hash: Some(p),
            waiting: (self.waiting + 1) as u8,
            ..self
        }
    }

    /// A waiting previous hash is superseded when others wait and the latest one
    /// is another.
    pub open spec fn superseded(self, p: SetNewPrevHashView) -> bool {
        self.waiting > 1 && self.prev_hash != Some(p)
    }

    /// What looking for the job of a waiting previous hash leaves behind: nothing
    /// changes while there is none; a superseded one stops waiting; one whose job
    /// is there stops waiting and every future job is dropped.
    pub open spec fn resolve(self, p: SetNewPrevHashView) -> Self {
        if self.superseded(p) {
            JobDeclaratorView { waiting: (self.waiting - 1) as u8, ..self }
        } else if self.future_jobs.contains_key(p.template_id) {
            JobDeclaratorView {
                waiting: (self.waiting - 1) as u8,
                future_jobs: Map::empty(),
                ..self
            }
        } else {
            self
        }
    }

    /// The custom job that is set when a previous hash finds its job.
    pub open spec fn resolved_job(self, p: SetNewPrevHashView) -> CustomJobView {
        let future = self.future_jobs[p.template_id];
        messages::custom_job_view(
            future.job,
            future.template,
            future.pool_outputs,
            p,
            future.job.mining_job_token,
        )
    }
}

/// The user identifier under which tokens are requested.
pub open spec fn user_identifier() -> Seq<char> {
    "todo"@
}

/// Whether a request list asks for tokens under the ids `0` to `count - 1`.
pub open spec fn requests_tokens(requests: Seq<AllocateMiningJobToken>, count: int) -> bool {
    &&& requests.len() == count
    &&& forall|i: int|
        0 <= i < count ==> (#[trigger] requests[i]).request_id == i
            && requests[i].user_identifier@ == user_identifier()
}

/// The requests for the given number of tokens.
pub fn allocate_tokens(token_to_allocate: u32) -> (r: Vec<AllocateMiningJobToken>)
    ensures
        requests_tokens(r@, token_to_allocate as int),
        r@.len() == token_to_allocate,
        forall|i: int|
            0 <= i < r@.len() ==> (#[trigger] r@[i]).request_id == i && r@[i].user_identifier@
                == "todo"@,
{
    let mut requests: Vec<AllocateMiningJobToken> = Vec::new();
    for i in 0..token_to_allocate
        invariant
            requests_tokens(requests@, i as int),
    {
        requests.push(
            AllocateMiningJobToken { user_identifier: "todo".to_owned(), request_id: i },
        );
    }
    requests
}

/// What to do on the way to a token.
#[derive(Debug)]
pub enum TokenStep {
    /// Send the requests, then ask again until there is a token.
    Allocate(Vec<AllocateMiningJobToken>),
    /// Ask again.
    Wait,
    /// The token; the requests, if any, refill the store.
    Take(AllocateMiningJobTokenSuccess, Vec<AllocateMiningJobToken>),
}

/// The step that is due with a store of tokens, and what it leaves of the store.
pub open spec fn is_token_step(
    before: Seq<AllocateMiningJobTokenSuccess>,
    waiting: bool,
    step: TokenStep,
    after: Seq<AllocateMiningJobTokenSuccess>,
) -> bool {
    match step {
        TokenStep::Allocate(requests) => {
            &&& before.len() == 0 && !waiting
            &&& after == before
            &&& requests_tokens(requests@, 2)
        },
        TokenStep::Wait => {
            &&& before.len() == 0 && waiting
            &&& after == before
        },
        TokenStep::Take(token, requests) => {
            &&& before.len() > 0
            &&& token == before.last()
            &&& after == before.drop_last()
            &&& requests_tokens(
                requests@,
                if before.len() == 1 {
                    1
                } else {
                    0
                },
            )
        },
    }
}

/// What the pool's message handler made of an incoming message.
#[derive(Debug)]
pub enum UpstreamReply<M> {
    /// A declared job was accepted.
    DeclareMiningJobSuccess { request_id: u32, new_mining_job_token: Vec<u8> },
    /// A declared job was refused.
    DeclareMiningJobError { request_id: u32 },
    /// The message is dealt with.
    Handled,
    /// The message is to be answered.
    Respond(M),
}

/// What to do about a message of the pool.
#[derive(Debug)]
pub enum UpstreamAction<M> {
    /// Nothing more.
    Idle,
    /// Report that a job was not verified.
    ReportUnverified { request_id: u32 },
    /// Set a custom job at the mining upstream.
    SetCustomJob(CustomJob),
    /// Send an answer to the pool.
    Send(M),
}

/// What came of looking for the job of a waiting previous hash.
#[derive(Debug)]
pub enum PrevHashStep {
    /// A newer previous hash took over: stop.
    Superseded,
    /// Set this custom job at the mining upstream and stop.
    Ready(CustomJob),
    /// Look again.
    Waiting,
}

/// A map has no two smallest keys.
proof fn lemma_smallest_key_unique(jobs: Map<u32, LastDeclareJobView>, k: u32)
    requires
        is_smallest_key(jobs, k),
    ensures
        smallest_key(jobs) == k,
{
    let other = smallest_key(jobs);
    assert(is_smallest_key(jobs, other));
    assert(jobs.contains_key(k) && jobs.contains_key(other));
}

/// The smallest request id of the remembered jobs.
fn oldest_request(jobs: &HashMap<u32, LastDeclareJob>) -> (r: Option<u32>)
    ensures
        r is None <==> jobs@.dom() =~= Set::<u32>::empty(),
        r matches Some(k) ==> is_smallest_key(jobs@.map_values(|j: LastDeclareJob| j@), k),
{
    let mut best: Option<u32> = None;
    let keys = jobs.keys();
    for k in it: keys
        invariant
            best is None <==> it.index() == 0,
            best matches Some(b) ==> jobs@.contains_key(b) && forall|i: int|
                0 <= i < it.index() ==> b <= *(#[trigger] it.seq()[i]),
            it.seq().unref().to_set() == jobs@.dom(),
    {
        match best {
            Some(b) => {
                if *k < b {
                    best = Some(*k);
                }
            },
            None => {
                best = Some(*k);
            },
        }
    }
    best
}

impl JobDeclarator {
    /// A job declarator that knows nothing yet, and the requests for its first
    /// two tokens.
    pub fn new(min_extranonce_size: u16) -> (r: (JobDeclarator, Vec<AllocateMiningJobToken>))
        ensures
            r.0@ == (JobDeclaratorView {
                allocated_tokens: Seq::empty(),
                req_ids: 0,
                min_extranonce_size,
                declared: Map::empty(),
                prev_hash: None,
                waiting: 0,
                future_jobs: Map::empty(),
                coinbase_tx_prefix: Seq::empty(),
                coinbase_tx_suffix: Seq::empty(),
            }),
            r.0@.wf(),
            requests_tokens(r.1@, 2),
    {
        let declarator = JobDeclarator {
            allocated_tokens: Vec::new(),
            req_ids: 0,
            min_extranonce_size,
            last_declare_mining_jobs_sent: HashMap::with_capacity(2),
            last_set_new_prev_hash: None,
            set_new_prev_hash_counter: 0,
            future_jobs: no_future_jobs(),
            coinbase_tx_prefix: Vec::new(),
            coinbase_tx_suffix: Vec::new(),
        };
        proof {
            assert(declarator@.declared =~= Map::empty());
            assert(declarator@.future_jobs =~= Map::empty());
            assert(declarator@.allocated_tokens =~= Seq::empty());
            assert(declarator@.coinbase_tx_prefix =~= Seq::empty());
            assert(declarator@.coinbase_tx_suffix =~= Seq::empty());
        }
        (declarator, allocate_tokens(2))
    }

    /// Takes a declared job out of those that the pool has not answered.
    pub fn get_last_declare_job_sent(&mut self, request_id: u32) -> (r: LastDeclareJob)
        requires
            old(self)@.declared.contains_key(request_id),
        ensures
            r@ == old(self)@.declared[request_id],
            final(self)@ == (JobDeclaratorView {
                declared: old(self)@.declared.remove(request_id),
                ..old(self)@
            }),
            old(self)@.wf() ==> final(self)@.wf(),
    {
        let job = self.last_declare_mining_jobs_sent.remove(&request_id).unwrap();
        proof {
            assert(self@.declared =~= old(self)@.declared.remove(request_id));
        }
        job
    }

    /// Remembers a declared job until the pool answers. At most ten are
    /// remembered: the one with the smallest request id makes room.
    pub fn update_last_declare_job_sent(&mut self, request_id: u32, j: LastDeclareJob)
        ensures
            final(self)@ == old(self)@.remember(request_id, j@),
            final(self).last_declare_mining_jobs_sent@.contains_key(request_id),
            final(self).last_declare_mining_jobs_sent@[request_id] == j,
    {
        let ghost before = self@.declared;
        let ghost jobs = self.last_declare_mining_jobs_sent@;
        proof {
            assert(before.dom() =~= jobs.dom());
        }
        if self.last_declare_mining_jobs_sent.len() < MAX_DECLARED_JOBS {
            self.last_declare_mining_jobs_sent.insert(request_id, j);
            proof {
                assert(self@.declared =~= before.insert(request_id, j@));
            }
        } else {
            match oldest_request(&self.last_declare_mining_jobs_sent) {
                Some(min_key) => {
                    self.last_declare_mining_jobs_sent.remove(&min_key);
                    self.last_declare_mining_jobs_sent.insert(request_id, j);
                    proof {
                        lemma_smallest_key_unique(before, min_key);
                        assert(self@.declared =~= before.remove(min_key).insert(request_id, j@));
                    }
                },
                None => {},
            }
        }
    }
}

impl JobDeclarator {
    /// The next token, or what it takes to get one. With no token in store two are
    /// requested, once, and the caller asks again, `waiting`, until there is one.
    /// Taking the only token requests another.
    pub fn get_last_token(&mut self, waiting: bool) -> (r: TokenStep)
        ensures
            is_token_step(
                old(self)@.allocated_tokens,
                waiting,
                r,
                final(self)@.allocated_tokens,
            ),
            final(self)@ == (JobDeclaratorView {
                allocated_tokens: final(self)@.allocated_tokens,
                ..old(self)@
            }),
            old(self)@.wf() ==> final(self)@.wf(),
    {
        match self.allocated_tokens.len() {
            0 => {
                if waiting {
                    TokenStep::Wait
                } else {
                    TokenStep::Allocate(allocate_tokens(2))
                }
            },
            1 => {
                let token = self.allocated_tokens.pop().unwrap();
                TokenStep::Take(token, allocate_tokens(1))
            },
            _ => {
                let token = self.allocated_tokens.pop().unwrap();
                TokenStep::Take(token, allocate_tokens(0))
            },
        }
    }

    /// Declares a job for a template, given the hashes of its transactions: the job
    /// is remembered under the next request id, and the declaration to send is
    /// handed out. A token has at most 255 bytes.
    pub fn declare_job(
        &mut self,
        template: NewTemplate,
        token: Vec<u8>,
        tx_list: Vec<Vec<u8>>,
        excess_data: Vec<u8>,
        coinbase_pool_output: Vec<u8>,
        tx_short_hash_list: Vec<Vec<u8>>,
        tx_hash_list_hash: Vec<u8>,
    ) -> (r: DeclareMiningJob)
        requires
            old(self).req_ids < u32::MAX,
            token@.len() <= 255,
        ensures
            r@ == old(self)@.declaration(
                template@,
                token@,
                excess_data@,
                text::bytes_of(tx_short_hash_list@),
                tx_hash_list_hash@,
            ),
            r.request_id == old(self).req_ids + 1,
            r.mining_job_token == token,
            r.version == template.version,
            r.coinbase_prefix@ == old(self).coinbase_tx_prefix@,
            r.coinbase_suffix@ == old(self).coinbase_tx_suffix@,
            r.tx_short_hash_nonce == 0,
            r.tx_short_hash_list == tx_short_hash_list,
            r.tx_hash_list_hash == tx_hash_list_hash,
            r.excess_data == excess_data,
            final(self)@ == old(self)@.declare(
                (LastDeclareJobView {
                    declare_job: r@,
                    template: template@,
                    coinbase_pool_output: coinbase_pool_output@,
                    tx_list: text::bytes_of(tx_list@),
                }),
            ),
            old(self)@.wf() ==> final(self)@.wf(),
    {
        self.req_ids = self.req_ids + 1;
        let declare_job = DeclareMiningJob {
            request_id: self.req_ids,
            mining_job_token: token,
            version: template.version,
            coinbase_prefix: copy_bytes(&self.coinbase_tx_prefix),
            coinbase_suffix: copy_bytes(&self.coinbase_tx_suffix),
            tx_short_hash_nonce: TX_SHORT_HASH_NONCE,
            tx_short_hash_list,
            tx_hash_list_hash,
            excess_data,
        };
        let last_declare = LastDeclareJob {
            declare_job: declare_job.clone(),
            template,
            coinbase_pool_output,
            tx_list,
        };
        let ghost last = last_declare@;
        let ghost numbered = self@;
        proof {
            assert(numbered == (JobDeclaratorView {
                req_ids: (old(self)@.req_ids + 1) as u32,
                ..old(self)@
            }));
        }
        self.update_last_declare_job_sent(declare_job.request_id, last_declare);
        proof {
            if old(self)@.wf() {
                remembered_jobs_are_bounded(numbered, declare_job.request_id, last);
            }
        }
        declare_job
    }

    /// A new template arrived: the hashes of its transactions are computed and a
    /// job is declared for it: a short hash of six bytes for every transaction, and
    /// one hash of 32 bytes over all. `None`, and nothing changes, where an entry of
    /// the transaction list is not a transaction.
    pub fn on_new_template(
        &mut self,
        template: NewTemplate,
        token: Vec<u8>,
        tx_list: Vec<Vec<u8>>,
        excess_data: Vec<u8>,
        coinbase_pool_output: Vec<u8>,
    ) -> (r: Option<DeclareMiningJob>)
        requires
            old(self).req_ids < u32::MAX,
            token@.len() <= 255,
        ensures
            r is Some <==> all_decode(text::bytes_of(tx_list@)),
            r is None ==> final(self)@ == old(self)@,
            r matches Some(job) ==> {
                let hashes = chain::tx_hash_lists(text::bytes_of(tx_list@), 0);
                &&& job.request_id == old(self).req_ids + 1
                &&& job.mining_job_token == token
                &&& job.version == template.version
                &&& job.coinbase_prefix@ == old(self).coinbase_tx_prefix@
                &&& job.coinbase_suffix@ == old(self).coinbase_tx_suffix@
                &&& job.tx_short_hash_nonce == 0
                &&& text::bytes_of(job.tx_short_hash_list@) == hashes.0
                &&& job.tx_hash_list_hash@ == hashes.1
                &&& job.excess_data == excess_data
                &&& job@ == old(self)@.declaration(
                    template@,
                    token@,
                    excess_data@,
                    hashes.0,
                    hashes.1,
                )
                &&& final(self)@ == old(self)@.declare(
                    (LastDeclareJobView {
                        declare_job: job@,
                        template: template@,
                        coinbase_pool_output: coinbase_pool_output@,
                        tx_list: text::bytes_of(tx_list@),
                    }),
                )
                &&& job@.tx_short_hash_list.len() == tx_list@.len()
                &&& forall|i: int|
                    0 <= i < tx_list@.len() ==> (#[trigger] job@.tx_short_hash_list[i]).len() == 6
                &&& job@.tx_hash_list_hash.len() == 32
            },
            old(self)@.wf() ==> final(self)@.wf(),
    {
        for i in 0..tx_list.len()
            invariant
                *self == *old(self),
                forall|j: int| 0 <= j < i ==> chain::tx_decodes((#[trigger] tx_list@[j])@),
        {
            if !chain::transaction_decodes(&tx_list[i]) {
                proof {
                    assert(!chain::tx_decodes(text::bytes_of(tx_list@)[i as int]));
                }
                return None;
            }
        }
        let (tx_short_hash_list, tx_hash_list_hash) = chain::hash_lists(
            &tx_list,
            TX_SHORT_HASH_NONCE,
        );
        Some(
            self.declare_job(
                template,
                token,
                tx_list,
                excess_data,
                coinbase_pool_output,
                tx_short_hash_list,
                tx_hash_list_hash,
            ),
        )
    }
}

/// Whether every entry of a list is a serialized transaction.
pub open spec fn all_decode(tx_list: Seq<Seq<u8>>) -> bool {
    forall|i: int| 0 <= i < tx_list.len() ==> chain::tx_decodes(#[trigger] tx_list[i])
}

/// Remembering a job under its own request id, which was given out before, keeps
/// the invariant: never more than ten jobs are remembered.
pub proof fn remembered_jobs_are_bounded(v: JobDeclaratorView, request_id: u32, j: LastDeclareJobView)
    requires
        1 <= request_id <= v.req_ids,
        j.declare_job.request_id == request_id,
        v.wf(),
    ensures
        v.remember(request_id, j).wf(),
        v.remember(request_id, j).declared.contains_key(request_id),
        v.remember(request_id, j).declared[request_id] == j,
{
    if v.declared.len() >= MAX_DECLARED_JOBS {
        lemma_has_smallest_key(v.declared);
    }
}

/// A finite map that is not empty has a smallest key.
proof fn lemma_has_smallest_key(jobs: Map<u32, LastDeclareJobView>)
    requires
        jobs.dom().finite(),
        jobs.len() > 0,
    ensures
        is_smallest_key(jobs, smallest_key(jobs)),
    decreases jobs.len(),
{
    let k = jobs.dom().choose();
    assert(jobs.contains_key(k));
    let rest = jobs.remove(k);
    if rest.len() == 0 {
        assert forall|j: u32| #[trigger] jobs.contains_key(j) implies k <= j by {
            if j != k {
                assert(rest.dom().contains(j));
                assert(rest.dom().len() > 0);
            }
        }
        assert(is_smallest_key(jobs, k));
    } else {
        lemma_has_smallest_key(rest);
        let m = smallest_key(rest);
        let least = if m < k {
            m
        } else {
            k
        };
        assert forall|j: u32| #[trigger] jobs.contains_key(j) implies least <= j by {
            if j != k {
                assert(rest.contains_key(j));
            }
        }
        assert(is_smallest_key(jobs, least));
    }
}

impl<M> UpstreamReply<M> {
    /// Whether a reply can be acted on in the given state.
    pub open spec fn fits(self, v: JobDeclaratorView) -> bool {
        self matches UpstreamReply::DeclareMiningJobSuccess { request_id, .. } ==> v.can_accept(
            request_id,
        )
    }
}

impl JobDeclarator {
    /// Whether the pool's acceptance of a declared job can be acted on.
    pub fn can_accept(&self, request_id: u32) -> (r: bool)
        ensures
            r == self@.can_accept(request_id),
    {
        match self.last_declare_mining_jobs_sent.get(&request_id) {
            Some(last) => last.template.future_template || self.last_set_new_prev_hash.is_some(),
            None => false,
        }
    }

    /// Acts on what the message handler made of a message of the pool. An accepted
    /// job is set at the mining upstream at once, or kept for its previous hash
    /// where its template is a future one.
    pub fn on_upstream_message<M>(&mut self, reply: UpstreamReply<M>) -> (r: UpstreamAction<M>)
        requires
            reply.fits(old(self)@),
        ensures
            match reply {
                UpstreamReply::DeclareMiningJobSuccess { request_id, new_mining_job_token } => {
                    &&& final(self)@ == old(self)@.accept(request_id, new_mining_job_token@)
                    &&& if old(self)@.declared[request_id].template.future_template {
                        r is Idle
                    } else {
                        r matches UpstreamAction::SetCustomJob(job) && job@
                            == old(self)@.accepted_job(request_id, new_mining_job_token@)
                    }
                },
                UpstreamReply::DeclareMiningJobError { request_id } => {
                    &&& final(self)@ == old(self)@
                    &&& r == UpstreamAction::<M>::ReportUnverified { request_id }
                },
                UpstreamReply::Handled => final(self)@ == old(self)@ && r is Idle,
                UpstreamReply::Respond(m) => {
                    &&& final(self)@ == old(self)@
                    &&& r == UpstreamAction::Send(m)
                },
            },
            old(self)@.wf() ==> final(self)@.wf(),
    {
        match reply {
            UpstreamReply::DeclareMiningJobSuccess { request_id, new_mining_job_token } => {
                let last_declare = self.get_last_declare_job_sent(request_id);
                let ghost rest = self@;
                let mut job = last_declare.declare_job;
                let template = last_declare.template;
                if template.future_template {
                    let id = template.template_id;
                    job.mining_job_token = new_mining_job_token;
                    let future = FutureJob {
                        job,
                        template,
                        pool_outputs: last_declare.coinbase_pool_output,
                    };
                    put_future_job(&mut self.future_jobs, id, future);
                    proof {
                        assert(self@.future_jobs =~= rest.future_jobs.insert(id, future@));
                        assert(self@ == old(self)@.accept(request_id, new_mining_job_token@));
                    }
                    UpstreamAction::Idle
                } else {
                    let prev_hash = self.last_set_new_prev_hash.as_ref().unwrap().clone();
                    UpstreamAction::SetCustomJob(
                        CustomJob::new(
                            job,
                            template,
                            last_declare.coinbase_pool_output,
                            prev_hash,
                            new_mining_job_token,
                        ),
                    )
                }
            },
            UpstreamReply::DeclareMiningJobError { request_id } => {
                UpstreamAction::ReportUnverified { request_id }
            },
            UpstreamReply::Handled => UpstreamAction::Idle,
            UpstreamReply::Respond(m) => UpstreamAction::Send(m),
        }
    }

    /// A new previous hash arrived. Its job is then looked for with
    /// [`JobDeclarator::resolve_new_prev_hash`] until that stops.
    pub fn on_set_new_prev_hash(&mut self, set_new_prev_hash: &SetNewPrevHash)
        requires
            old(self).set_new_prev_hash_counter < u8::MAX,
        ensures
            final(self)@ == old(self)@.arrive(set_new_prev_hash@),
            final(self).last_set_new_prev_hash matches Some(p) && p@ == set_new_prev_hash@,
            final(self).set_new_prev_hash_counter == old(self).set_new_prev_hash_counter + 1,
            old(self)@.wf() ==> final(self)@.wf(),
    {
        self.last_set_new_prev_hash = Some(set_new_prev_hash.clone());
        self.set_new_prev_hash_counter = self.set_new_prev_hash_counter + 1;
    }

    /// Looks for the job of a previous hash that arrived before and still waits.
    pub fn resolve_new_prev_hash(&mut self, set_new_prev_hash: &SetNewPrevHash) -> (r: PrevHashStep)
        requires
            old(self).set_new_prev_hash_counter >= 1,
        ensures
            final(self)@ == old(self)@.resolve(set_new_prev_hash@),
            match r {
                PrevHashStep::Superseded => old(self)@.superseded(set_new_prev_hash@),
                PrevHashStep::Ready(job) => {
                    &&& !old(self)@.superseded(set_new_prev_hash@)
                    &&& old(self)@.future_jobs.contains_key(set_new_prev_hash.template_id)
                    &&& job@ == old(self)@.resolved_job(set_new_prev_hash@)
                },
                PrevHashStep::Waiting => {
                    &&& !old(self)@.superseded(set_new_prev_hash@)
                    &&& !old(self)@.future_jobs.contains_key(set_new_prev_hash.template_id)
                },
            },
            old(self)@.wf() ==> final(self)@.wf(),
    {
        let latest = match &self.last_set_new_prev_hash {
            Some(last) => last.same_as(set_new_prev_hash),
            None => false,
        };
        if self.set_new_prev_hash_counter > 1 && !latest {
            self.set_new_prev_hash_counter = self.set_new_prev_hash_counter - 1;
            return PrevHashStep::Superseded;
        }
        let ghost before = self.future_jobs@;
        match take_future_job(&mut self.future_jobs, set_new_prev_hash.template_id) {
            Some(future) => {
                self.future_jobs = no_future_jobs();
                self.set_new_prev_hash_counter = self.set_new_prev_hash_counter - 1;
                proof {
                    assert(self@.future_jobs =~= Map::empty());
                }
                let signed_token = copy_bytes(&future.job.mining_job_token);
                PrevHashStep::Ready(
                    CustomJob::new(
                        future.job,
                        future.template,
                        future.pool_outputs,
                        set_new_prev_hash.clone(),
                        signed_token,
                    ),
                )
            },
            None => {
                proof {
                    assert(before.remove(set_new_prev_hash.template_id) =~= before);
                }
                PrevHashStep::Waiting
            },
        }
    }

    /// The solution to submit for a share that solves a block: its previous hash
    /// and difficulty are those that were announced last.
    pub fn on_solution(&self, solution: SubmitSharesExtended) -> (r: SubmitSolutionJd)
        requires
            self.last_set_new_prev_hash is Some,
        ensures
            r.extranonce == solution.extranonce,
            r.prev_hash@ == (self@.prev_hash->0).prev_hash,
            r.ntime == solution.ntime,
            r.nonce == solution.nonce,
            r.nbits == (self@.prev_hash->0).n_bits,
            r.version == solution.version,
    {
        let prev_hash = self.last_set_new_prev_hash.as_ref().unwrap();
        SubmitSolutionJd {
            extranonce: solution.extranonce,
            prev_hash: copy_bytes(&prev_hash.prev_hash),
            ntime: solution.ntime,
            nonce: solution.nonce,
            nbits: prev_hash.n_bits,
            version: solution.version,
        }
    }
}

/// Declaring a job takes a request id that no remembered job has, and forgets at
/// most the remembered job with the smallest, that is the oldest, request id: all
/// others stay as they are.
pub proof fn declaring_forgets_only_the_oldest(v: JobDeclaratorView, j: LastDeclareJobView, k: u32)
    requires
        v.wf(),
        v.req_ids < u32::MAX,
        v.declared.contains_key(k),
        v.declared.len() < MAX_DECLARED_JOBS || !is_smallest_key(v.declared, k),
    ensures
        !v.declared.contains_key((v.req_ids + 1) as u32),
        v.declare(j).declared.contains_key(k),
        v.declare(j).declared[k] == v.declared[k],
{
    if v.declared.len() >= MAX_DECLARED_JOBS {
        lemma_has_smallest_key(v.declared);
    }
}

/// A job that was declared for a template which is already valid is set, when the
/// pool accepts it, with the template, the pool's outputs and the latest previous
/// hash, under the token of the acceptance; it is then no longer outstanding.
pub proof fn accepted_job_is_the_declared_job(
    v: JobDeclaratorView,
    j: LastDeclareJobView,
    new_token: Seq<u8>,
)
    requires
        v.wf(),
        v.req_ids < u32::MAX,
        j.declare_job.request_id == v.req_ids + 1,
        !j.template.future_template,
        v.prev_hash is Some,
    ensures
        ({
            let id = (v.req_ids + 1) as u32;
            let declared = v.declare(j);
            &&& declared.can_accept(id)
            &&& declared.accepted_job(id, new_token) == messages::custom_job_view(
                j.declare_job,
                j.template,
                j.coinbase_pool_output,
                v.prev_hash->0,
                new_token,
            )
            &&& !declared.accept(id, new_token).declared.contains_key(id)
            &&& declared.accept(id, new_token).future_jobs == v.future_jobs
        }),
{
    remembered_jobs_are_bounded(
        (JobDeclaratorView { req_ids: (v.req_ids + 1) as u32, ..v }),
        (v.req_ids + 1) as u32,
        j,
    );
}

/// A job that was declared for a future template and accepted is set, with the
/// token of the acceptance, when the previous hash of its template arrives and is
/// looked up; no future job is left then and the previous hash waits no longer.
pub proof fn future_job_is_set_with_its_prev_hash(
    v: JobDeclaratorView,
    j: LastDeclareJobView,
    new_token: Seq<u8>,
    p: SetNewPrevHashView,
)
    requires
        v.wf(),
        v.req_ids < u32::MAX,
        v.waiting < u8::MAX,
        j.declare_job.request_id == v.req_ids + 1,
        j.template.future_template,
        p.template_id == j.template.template_id,
    ensures
        ({
            let id = (v.req_ids + 1) as u32;
            let accepted = v.declare(j).accept(id, new_token);
            let arrived = accepted.arrive(p);
            &&& v.declare(j).can_accept(id)
            &&& !arrived.superseded(p)
            &&& arrived.future_jobs.contains_key(p.template_id)
            &&& arrived.resolved_job(p) == messages::custom_job_view(
                (DeclareMiningJobView { mining_job_token: new_token, ..j.declare_job }),
                j.template,
                j.coinbase_pool_output,
                p,
                new_token,
            )
            &&& arrived.resolve(p).future_jobs == Map::<u64, FutureJobView>::empty()
            &&& arrived.resolve(p).waiting == v.waiting
        }),
{
    remembered_jobs_are_bounded(
        (JobDeclaratorView { req_ids: (v.req_ids + 1) as u32, ..v }),
        (v.req_ids + 1) as u32,
        j,
    );
}

/// A previous hash that waits is superseded by the arrival of a different one,
/// which itself is not superseded.
pub proof fn newest_prev_hash_supersedes(
    v: JobDeclaratorView,
    first: SetNewPrevHashView,
    second: SetNewPrevHashView,
)
    requires
        v.waiting + 2 <= u8::MAX,
        first != second,
    ensures
        v.arrive(first).arrive(second).superseded(first),
        !v.arrive(first).arrive(second).superseded(second),
        v.arrive(first).arrive(second).resolve(first).waiting == v.waiting + 1,
{
}

/// Where the counter of waiting previous hashes agrees with the lookups under way,
/// it goes on agreeing with them: an arrival starts one, and a lookup that stops,
/// superseded or with its job, ends one. So a lookup under way always finds the
/// counter above zero.
pub proof fn counter_agrees_with_the_lookups_under_way(
    v: JobDeclaratorView,
    under_way: Seq<SetNewPrevHashView>,
    arriving: SetNewPrevHashView,
    i: int,
)
    requires
        v.waiting == under_way.len(),
        0 <= i < under_way.len(),
    ensures
        v.waiting >= 1,
        v.waiting < u8::MAX ==> v.arrive(arriving).waiting == under_way.push(arriving).len(),
        v.resolve(under_way[i]).waiting == (if v.superseded(under_way[i])
            || v.future_jobs.contains_key(under_way[i].template_id) {
            under_way.remove(i).len()
        } else {
            under_way.len()
        }),
{
}

/// Tokens are taken last in, first out: while there is one, the last is handed out and
/// the others stay as they are, and taking the only one requests another. With none
/// in store two are requested, once.
pub proof fn tokens_are_taken_last_in_first_out(
    before: Seq<AllocateMiningJobTokenSuccess>,
    waiting: bool,
    step: TokenStep,
    after: Seq<AllocateMiningJobTokenSuccess>,
)
    requires
        is_token_step(before, waiting, step, after),
    ensures
        step is Take <==> before.len() > 0,
        step is Allocate <==> before.len() == 0 && !waiting,
        step is Wait <==> before.len() == 0 && waiting,
        step matches TokenStep::Take(token, requests) ==> {
            &&& before == after.push(token)
            &&& before.len() == 1 ==> requests@.len() == 1 && requests@[0].request_id == 0
                && requests@[0].user_identifier@ == "todo"@
            &&& before.len() > 1 ==> requests@.len() == 0
        },
        step matches TokenStep::Allocate(requests) ==> {
            &&& after == before
            &&& requests@.len() == 2
            &&& requests@[0].request_id == 0 && requests@[0].user_identifier@ == "todo"@
            &&& requests@[1].request_id == 1 && requests@[1].user_identifier@ == "todo"@
        },
        step is Wait ==> after == before,
{
    if step is Take {
        assert(before =~= after.push(before.last()));
    }
}

/// Whoever takes a token leaves another one in store or on its way.
pub proof fn taking_a_token_keeps_one_coming(
    before: Seq<AllocateMiningJobTokenSuccess>,
    waiting: bool,
    step: TokenStep,
    after: Seq<AllocateMiningJobTokenSuccess>,
)
    requires
        is_token_step(before, waiting, step, after),
    ensures
        step matches TokenStep::Take(_, requests) ==> after.len() + requests@.len() >= 1,
        step matches TokenStep::Allocate(requests) ==> requests@.len() == 2,
{
}

/// A declarator is seen with everything that it holds: the declared and the future
/// jobs each under their key, and the latest previous hash where there is one.
pub proof fn declarators_are_seen_whole(d: JobDeclarator, request_id: u32, template_id: u64)
    ensures
        d@.allocated_tokens == d.allocated_tokens@,
        d@.req_ids == d.req_ids,
        d@.min_extranonce_size == d.min_extranonce_size,
        d@.declared.contains_key(request_id)
            <==> d.last_declare_mining_jobs_sent@.contains_key(request_id),
        d@.declared.contains_key(request_id) ==> d@.declared[request_id]
            == d.last_declare_mining_jobs_sent@[request_id]@,
        d.last_set_new_prev_hash is None <==> d@.prev_hash is None,
        d.last_set_new_prev_hash is Some ==> d@.prev_hash == Some(d.last_set_new_prev_hash->0@),
        d@.waiting == d.set_new_prev_hash_counter,
        d@.future_jobs.contains_key(template_id) <==> d.future_jobs@.contains_key(template_id),
        d@.future_jobs.contains_key(template_id) ==> d@.future_jobs[template_id]
            == d.future_jobs@[template_id]@,
        d@.coinbase_tx_prefix == d.coinbase_tx_prefix@,
        d@.coinbase_tx_suffix == d.coinbase_tx_suffix@,
{
}

/// A well-formed declarator remembers at most ten jobs, each under its own request id,
/// which was given out before, and keeps every future job under the id of its
/// template, which is a future one.
pub proof fn jobs_stand_under_their_own_ids(
    v: JobDeclaratorView,
    request_id: u32,
    template_id: u64,
)
    requires
        v.wf(),
    ensures
        v.declared.len() <= 10,
        v.declared.contains_key(request_id) ==> 1 <= request_id <= v.req_ids
            && v.declared[request_id].declare_job.request_id == request_id,
        v.future_jobs.contains_key(template_id) ==> v.future_jobs[template_id].template.template_id
            == template_id && v.future_jobs[template_id].template.future_template,
{
}

/// Remembering a job puts it under its request id. Of the other jobs all stay as they
/// are while fewer than ten are remembered; else the one with the smallest request id
/// goes, and only that one. Nothing else changes.
pub proof fn remembering_makes_room_by_the_smallest_id(
    v: JobDeclaratorView,
    request_id: u32,
    j: LastDeclareJobView,
    k: u32,
)
    requires
        v.declared.dom().finite(),
        k != request_id,
    ensures
        ({
            let after = v.remember(request_id, j);
            &&& after.declared.contains_key(request_id) && after.declared[request_id] == j
            &&& after.declared.contains_key(k) ==> v.declared.contains_key(k) && after.declared[k]
                == v.declared[k]
            &&& v.declared.contains_key(k) && v.declared.len() < 10 ==> after.declared.contains_key(
                k,
            )
            &&& v.declared.contains_key(k) && v.declared.len() >= 10 ==> (after.declared.contains_key(
                k,
            ) <==> exists|less: u32| #[trigger] v.declared.contains_key(less) && less < k)
            &&& after.allocated_tokens == v.allocated_tokens
            &&& after.req_ids == v.req_ids
            &&& after.min_extranonce_size == v.min_extranonce_size
            &&& after.prev_hash == v.prev_hash
            &&& after.waiting == v.waiting
            &&& after.future_jobs == v.future_jobs
            &&& after.coinbase_tx_prefix == v.coinbase_tx_prefix
            &&& after.coinbase_tx_suffix == v.coinbase_tx_suffix
        }),
{
    if v.declared.len() >= 10 {
        lemma_has_smallest_key(v.declared);
        let least = smallest_key(v.declared);
        if v.declared.contains_key(k) && k != least {
            assert(v.declared.contains_key(least) && least < k);
        }
    }
}

/// A job is declared under the next request id with the given token, the template's
/// block version, the coinbase parts in store, the given transaction hashes under
/// nonce zero and the given excess data.
pub proof fn a_declaration_is_made_of_its_template(
    v: JobDeclaratorView,
    template: NewTemplateView,
    token: Seq<u8>,
    excess_data: Seq<u8>,
    tx_short_hash_list: Seq<Seq<u8>>,
    tx_hash_list_hash: Seq<u8>,
)
    requires
        v.req_ids < u32::MAX,
    ensures
        ({
            let d = v.declaration(
                template,
                token,
                excess_data,
                tx_short_hash_list,
                tx_hash_list_hash,
            );
            &&& d.request_id == v.req_ids + 1
            &&& d.mining_job_token == token
            &&& d.version == template.version
            &&& d.coinbase_prefix == v.coinbase_tx_prefix
            &&& d.coinbase_suffix == v.coinbase_tx_suffix
            &&& d.tx_short_hash_nonce == 0
            &&& d.tx_short_hash_list == tx_short_hash_list
            &&& d.tx_hash_list_hash == tx_hash_list_hash
            &&& d.excess_data == excess_data
        }),
{
}

/// Declaring a job uses one request id up and remembers the job under it. Of the other
/// jobs all stay while fewer than ten are remembered, else all but the one with the
/// smallest request id. Neither the tokens change nor the previous hash, the future
/// jobs or the coinbase parts.
pub proof fn declaring_uses_one_request_id(v: JobDeclaratorView, j: LastDeclareJobView, k: u32)
    requires
        v.req_ids < u32::MAX,
        v.declared.dom().finite(),
        k != v.req_ids + 1,
    ensures
        ({
            let after = v.declare(j);
            &&& after.req_ids == v.req_ids + 1
            &&& after.declared.contains_key(after.req_ids) && after.declared[after.req_ids] == j
            &&& after.declared.contains_key(k) ==> v.declared.contains_key(k) && after.declared[k]
                == v.declared[k]
            &&& v.declared.contains_key(k) ==> (after.declared.contains_key(k) <==> (
            v.declared.len() < 10 || exists|less: u32| #[trigger]
                v.declared.contains_key(less) && less < k))
            &&& after.allocated_tokens == v.allocated_tokens
            &&& after.min_extranonce_size == v.min_extranonce_size
            &&& after.prev_hash == v.prev_hash
            &&& after.waiting == v.waiting
            &&& after.future_jobs == v.future_jobs
            &&& after.coinbase_tx_prefix == v.coinbase_tx_prefix
            &&& after.coinbase_tx_suffix == v.coinbase_tx_suffix
        }),
{
    let numbered = JobDeclaratorView { req_ids: (v.req_ids + 1) as u32, ..v };
    remembering_makes_room_by_the_smallest_id(numbered, numbered.req_ids, j, k);
}

/// The pool's acceptance can be acted on exactly where the job is remembered and, but
/// for future templates, a previous hash is known. Whatever else the pool's messages
/// come to can always be acted on.
pub proof fn acceptances_of_remembered_jobs_can_be_acted_on<M>(
    v: JobDeclaratorView,
    reply: UpstreamReply<M>,
    request_id: u32,
)
    ensures
        !v.declared.contains_key(request_id) ==> !v.can_accept(request_id),
        v.declared.contains_key(request_id) && v.declared[request_id].template.future_template
            ==> v.can_accept(request_id),
        v.declared.contains_key(request_id) && v.prev_hash is Some ==> v.can_accept(request_id),
        v.prev_hash is None && !v.declared[request_id].template.future_template
            ==> !v.can_accept(request_id),
        reply !is DeclareMiningJobSuccess ==> reply.fits(v),
        reply is DeclareMiningJobSuccess ==> (reply.fits(v) <==> v.can_accept(
            reply->DeclareMiningJobSuccess_request_id,
        )),
{
}

/// An accepted job is no longer outstanding. One of a future template waits under its
/// template's id, declared as before but for the new token, with its template and
/// the pool's outputs; one of a valid template waits nowhere. Nothing else changes.
pub proof fn acceptance_moves_one_job(
    v: JobDeclaratorView,
    request_id: u32,
    new_token: Seq<u8>,
    other: u32,
    template_id: u64,
)
    requires
        v.declared.contains_key(request_id),
    ensures
        ({
            let after = v.accept(request_id, new_token);
            let last = v.declared[request_id];
            &&& !after.declared.contains_key(request_id)
            &&& other != request_id ==> (after.declared.contains_key(other)
                <==> v.declared.contains_key(other))
            &&& other != request_id && v.declared.contains_key(other) ==> after.declared[other]
                == v.declared[other]
            &&& last.template.future_template && template_id == last.template.template_id ==> {
                let future = after.future_jobs[template_id];
                &&& after.future_jobs.contains_key(template_id)
                &&& future.template == last.template
                &&& future.pool_outputs == last.coinbase_pool_output
                &&& future.job.mining_job_token == new_token
                &&& future.job.request_id == last.declare_job.request_id
                &&& future.job.version == last.declare_job.version
                &&& future.job.coinbase_prefix == last.declare_job.coinbase_prefix
                &&& future.job.coinbase_suffix == last.declare_job.coinbase_suffix
                &&& future.job.tx_short_hash_nonce == last.declare_job.tx_short_hash_nonce
                &&& future.job.tx_short_hash_list == last.declare_job.tx_short_hash_list
                &&& future.job.tx_hash_list_hash == last.declare_job.tx_hash_list_hash
                &&& future.job.excess_data == last.declare_job.excess_data
            }
            &&& !last.template.future_template || template_id != last.template.template_id ==> {
                &&& after.future_jobs.contains_key(template_id) <==> v.future_jobs.contains_key(
                    template_id,
                )
                &&& v.future_jobs.contains_key(template_id) ==> after.future_jobs[template_id]
                    == v.future_jobs[template_id]
            }
            &&& after.allocated_tokens == v.allocated_tokens
            &&& after.req_ids == v.req_ids
            &&& after.min_extranonce_size == v.min_extranonce_size
            &&& after.prev_hash == v.prev_hash
            &&& after.waiting == v.waiting
            &&& after.coinbase_tx_prefix == v.coinbase_tx_prefix
            &&& after.coinbase_tx_suffix == v.coinbase_tx_suffix
        }),
{
}

/// The custom job of an accepted declaration is the declared job on the latest
/// previous hash, under the token of the acceptance, with its template's merkle path,
/// coinbase fields and id, and the pool's outputs before the template's.
pub proof fn an_accepted_job_has_its_templates_fields(
    v: JobDeclaratorView,
    request_id: u32,
    new_token: Seq<u8>,
)
    requires
        v.prev_hash is Some,
    ensures
        ({
            let job = v.accepted_job(request_id, new_token);
            let last = v.declared[request_id];
            &&& job.declare_job == last.declare_job
            &&& Some(job.set_new_prev_hash) == v.prev_hash
            &&& job.signed_token == new_token
            &&& job.merkle_path == last.template.merkle_path
            &&& job.coinbase_tx_version == last.template.coinbase_tx_version
            &&& job.coinbase_prefix == last.template.coinbase_prefix
            &&& job.coinbase_tx_input_sequence == last.template.coinbase_tx_input_sequence
            &&& job.coinbase_tx_value_remaining == last.template.coinbase_tx_value_remaining
            &&& job.coinbase_tx_outputs == last.coinbase_pool_output
                + last.template.coinbase_tx_outputs
            &&& job.coinbase_tx_locktime == last.template.coinbase_tx_locktime
            &&& job.template_id == last.template.template_id
        }),
{
}

/// The custom job that a previous hash sets is the future job of its template on that
/// previous hash, under the job's own token, with its template's merkle path,
/// coinbase fields and id, and the pool's outputs before the template's.
pub proof fn a_resolved_job_has_its_templates_fields(v: JobDeclaratorView, p: SetNewPrevHashView)
    ensures
        ({
            let job = v.resolved_job(p);
            let future = v.future_jobs[p.template_id];
            &&& job.declare_job == future.job
            &&& job.set_new_prev_hash == p
            &&& job.signed_token == future.job.mining_job_token
            &&& job.merkle_path == future.template.merkle_path
            &&& job.coinbase_tx_version == future.template.coinbase_tx_version
            &&& job.coinbase_prefix == future.template.coinbase_prefix
            &&& job.coinbase_tx_input_sequence == future.template.coinbase_tx_input_sequence
            &&& job.coinbase_tx_value_remaining == future.template.coinbase_tx_value_remaining
            &&& job.coinbase_tx_outputs == future.pool_outputs + future.template.coinbase_tx_outputs
            &&& job.coinbase_tx_locktime == future.template.coinbase_tx_locktime
            &&& job.template_id == future.template.template_id
        }),
{
}

/// After an announcement the announced previous hash is the latest one, in every
/// state, and one more waits; nothing else changes.
pub proof fn the_announced_prev_hash_is_the_latest(v: JobDeclaratorView, p: SetNewPrevHashView)
    requires
        v.waiting < u8::MAX,
    ensures
        v.arrive(p).prev_hash == Some(p),
        v.arrive(p).waiting == v.waiting + 1,
        v.arrive(p).allocated_tokens == v.allocated_tokens,
        v.arrive(p).req_ids == v.req_ids,
        v.arrive(p).min_extranonce_size == v.min_extranonce_size,
        v.arrive(p).declared == v.declared,
        v.arrive(p).future_jobs == v.future_jobs,
        v.arrive(p).coinbase_tx_prefix == v.coinbase_tx_prefix,
        v.arrive(p).coinbase_tx_suffix == v.coinbase_tx_suffix,
{
}

/// A waiting previous hash is superseded exactly where another one is the latest and
/// it does not wait alone. It stops waiting when it is, or when its job is there; in
/// the latter case no future job is left. Otherwise nothing changes, and in no case
/// anything else.
pub proof fn a_lookup_ends_superseded_or_with_its_job(v: JobDeclaratorView, p: SetNewPrevHashView)
    requires
        v.waiting >= 1,
    ensures
        v.waiting >= 2 && v.prev_hash != Some(p) ==> v.superseded(p),
        v.waiting == 1 || v.prev_hash == Some(p) ==> !v.superseded(p),
        v.superseded(p) ==> v.resolve(p).waiting == v.waiting - 1 && v.resolve(p).future_jobs
            == v.future_jobs,
        !v.superseded(p) && v.future_jobs.contains_key(p.template_id) ==> {
            &&& v.resolve(p).waiting == v.waiting - 1
            &&& forall|id: u64| !(#[trigger] v.resolve(p).future_jobs.contains_key(id))
        },
        !v.superseded(p) && !v.future_jobs.contains_key(p.template_id) ==> v.resolve(p) == v,
        v.resolve(p).prev_hash == v.prev_hash,
        v.resolve(p).allocated_tokens == v.allocated_tokens,
        v.resolve(p).req_ids == v.req_ids,
        v.resolve(p).min_extranonce_size == v.min_extranonce_size,
        v.resolve(p).declared == v.declared,
        v.resolve(p).coinbase_tx_prefix == v.coinbase_tx_prefix,
        v.resolve(p).coinbase_tx_suffix == v.coinbase_tx_suffix,
{
}

/// A transaction list can be declared exactly where each of its entries decodes.
pub proof fn every_entry_must_decode(tx_list: Seq<Seq<u8>>)
    ensures
        all_decode(tx_list) <==> !exists|i: int|
            0 <= i < tx_list.len() && !chain::tx_decodes(#[trigger] tx_list[i]),
{
}

} // verus!
