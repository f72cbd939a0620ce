//! The template and job messages that the job declarator works on.
use vstd::prelude::*;

use crate::text;
use crate::text::{copy_bytes, copy_list, same_bytes};

verus! {

/// A template handed out by the template provider.
#[derive(Debug)]
pub struct NewTemplate {
    pub template_id: u64,
    pub future_template: bool,
    pub version: u32,
    pub coinbase_tx_version: u32,
    pub coinbase_prefix: Vec<u8>,
    pub coinbase_tx_input_sequence: u32,
    pub coinbase_tx_value_remaining: u64,
    pub coinbase_tx_outputs_count: u32,
    pub coinbase_tx_outputs: Vec<u8>,
    pub coinbase_tx_locktime: u32,
    pub merkle_path: Vec<Vec<u8>>,
}

/// What a [`NewTemplate`] holds.
pub struct NewTemplateView {
    pub template_id: u64,
    pub future_template: bool,
    pub version: u32,
    pub coinbase_tx_version: u32,
    pub coinbase_prefix: Seq<u8>,
    pub coinbase_tx_input_sequence: u32,
    pub coinbase_tx_value_remaining: u64,
    pub coinbase_tx_outputs_count: u32,
    pub coinbase_tx_outputs: Seq<u8>,
    pub coinbase_tx_locktime: u32,
    pub merkle_path: Seq<Seq<u8>>,
}

impl View for NewTemplate {
    type V = NewTemplateView;

    open spec fn view(&self) -> NewTemplateView {
        NewTemplateView {
            template_id: self.template_id,
            future_template: self.future_template,
            version: self.version,
            coinbase_tx_version: self.coinbase_tx_version,
            coinbase_prefix: self.coinbase_prefix@,
            coinbase_tx_input_sequence: self.coinbase_tx_input_sequence,
            coinbase_tx_value_remaining: self.coinbase_tx_value_remaining,
            coinbase_tx_outputs_count: self.coinbase_tx_outputs_count,
            coinbase_tx_outputs: self.coinbase_tx_outputs@,
            coinbase_tx_locktime: self.coinbase_tx_locktime,
            merkle_path: text::bytes_of(self.merkle_path@),
        }
    }
}

/// The announcement of a new previous block hash, for one template.
#[derive(Debug)]
pub struct SetNewPrevHash {
    pub template_id: u64,
    pub prev_hash: Vec<u8>,
    pub header_timestamp: u32,
    pub n_bits: u32,
    pub target: Vec<u8>,
}

/// What a [`SetNewPrevHash`] holds.
pub struct SetNewPrevHashView {
    pub template_id: u64,
    pub prev_hash: Seq<u8>,
    pub header_timestamp: u32,
    pub n_bits: u32,
    pub target: Seq<u8>,
}

impl View for SetNewPrevHash {
    type V = SetNewPrevHashView;

    open spec fn view(&self) -> SetNewPrevHashView {
        SetNewPrevHashView {
            template_id: self.template_id,
            prev_hash: self.prev_hash@,
            header_timestamp: self.header_timestamp,
            n_bits: self.n_bits,
            target: self.target@,
        }
    }
}

impl Clone for SetNewPrevHash {
    fn clone(&self) -> (r: Self)
        ensures
            r@ == self@,
    {
        SetNewPrevHash {
            template_id: self.template_id,
            prev_hash: copy_bytes(&self.prev_hash),
            header_timestamp: self.header_timestamp,
            n_bits: self.n_bits,
            target: copy_bytes(&self.target),
        }
    }
}

impl SetNewPrevHash {
    /// Whether two announcements are the same in every field.
    pub fn same_as(&self, other: &SetNewPrevHash) -> (r: bool)
        ensures
            r == (self@ == other@),
    {
        self.template_id == other.template_id && self.header_timestamp == other.header_timestamp
            && self.n_bits == other.n_bits && same_bytes(&self.prev_hash, &other.prev_hash)
            && same_bytes(&self.target, &other.target)
    }
}

/// A request for a token with which a job can be declared.
#[derive(Debug)]
pub struct AllocateMiningJobToken {
    pub user_identifier: String,
    pub request_id: u32,
}

/// A token with which one job can be declared.
#[derive(Debug)]
pub struct AllocateMiningJobTokenSuccess {
    pub request_id: u32,
    pub mining_job_token: Vec<u8>,
    pub coinbase_output_max_additional_size: u32,
    pub coinbase_output: Vec<u8>,
    pub async_mining_allowed: bool,
}

/// The declaration of a job to the pool.
#[derive(Debug)]
pub struct DeclareMiningJob {
    pub request_id: u32,
    pub mining_job_token: Vec<u8>,
    pub version: u32,
    pub coinbase_prefix: Vec<u8>,
    pub coinbase_suffix: Vec<u8>,
    pub tx_short_hash_nonce: u64,
    pub tx_short_hash_list: Vec<Vec<u8>>,
    pub tx_hash_list_hash: Vec<u8>,
    pub excess_data: Vec<u8>,
}

/// What a [`DeclareMiningJob`] holds.
pub struct DeclareMiningJobView {
    pub request_id: u32,
    pub mining_job_token: Seq<u8>,
    pub version: u32,
    pub coinbase_prefix: Seq<u8>,
    pub coinbase_suffix: Seq<u8>,
    pub tx_short_hash_nonce: u64,
    pub tx_short_hash_list: Seq<Seq<u8>>,
    pub tx_hash_list_hash: Seq<u8>,
    pub excess_data: Seq<u8>,
}

impl View for DeclareMiningJob {
    type V = DeclareMiningJobView;

    open spec fn view(&self) -> DeclareMiningJobView {
        DeclareMiningJobView {
            request_id: self.request_id,
            mining_job_token: self.mining_job_token@,
            version: self.version,
            coinbase_prefix: self.coinbase_prefix@,
            coinbase_suffix: self.coinbase_suffix@,
            tx_short_hash_nonce: self.tx_short_hash_nonce,
            tx_short_hash_list: text::bytes_of(self.tx_short_hash_list@),
            tx_hash_list_hash: self.tx_hash_list_hash@,
            excess_data: self.excess_data@,
        }
    }
}

impl Clone for DeclareMiningJob {
    fn clone(&self) -> (r: Self)
        ensures
            r@ == self@,
    {
        DeclareMiningJob {
            request_id: self.request_id,
            mining_job_token: copy_bytes(&self.mining_job_token),
            version: self.version,
            coinbase_prefix: copy_bytes(&self.coinbase_prefix),
            coinbase_suffix: copy_bytes(&self.coinbase_suffix),
            tx_short_hash_nonce: self.tx_short_hash_nonce,
            tx_short_hash_list: copy_list(&self.tx_short_hash_list),
            tx_hash_list_hash: copy_bytes(&self.tx_hash_list_hash),
            excess_data: copy_bytes(&self.excess_data),
        }
    }
}

/// A declared job that the pool has not answered yet.
#[derive(Debug)]
pub struct LastDeclareJob {
    pub declare_job: DeclareMiningJob,
    pub template: NewTemplate,
    pub coinbase_pool_output: Vec<u8>,
    pub tx_list: Vec<Vec<u8>>,
}

/// What a [`LastDeclareJob`] holds.
pub struct LastDeclareJobView {
    pub declare_job: DeclareMiningJobView,
    pub template: NewTemplateView,
    pub coinbase_pool_output: Seq<u8>,
    pub tx_list: Seq<Seq<u8>>,
}

impl View for LastDeclareJob {
    type V = LastDeclareJobView;

    open spec fn view(&self) -> LastDeclareJobView {
        LastDeclareJobView {
            declare_job: self.declare_job@,
            template: self.template@,
            coinbase_pool_output: self.coinbase_pool_output@,
            tx_list: text::bytes_of(self.tx_list@),
        }
    }
}

/// An accepted job whose template becomes valid with a later previous hash.
#[derive(Debug)]
pub struct FutureJob {
    pub job: DeclareMiningJob,
    pub template: NewTemplate,
    pub pool_outputs: Vec<u8>,
}

/// What a [`FutureJob`] holds.
pub struct FutureJobView {
    pub job: DeclareMiningJobView,
    pub template: NewTemplateView,
    pub pool_outputs: Seq<u8>,
}

impl View for FutureJob {
    type V = FutureJobView;

    open spec fn view(&self) -> FutureJobView {
        FutureJobView {
            job: self.job@,
            template: self.template@,
            pool_outputs: self.pool_outputs@,
        }
    }
}

/// Everything the mining upstream needs to set a custom job.
#[derive(Debug)]
pub struct CustomJob {
    pub declare_job: DeclareMiningJob,
    pub set_new_prev_hash: SetNewPrevHash,
    pub merkle_path: Vec<Vec<u8>>,
    pub signed_token: Vec<u8>,
    pub coinbase_tx_version: u32,
    pub coinbase_prefix: Vec<u8>,
    pub coinbase_tx_input_sequence: u32,
    pub coinbase_tx_value_remaining: u64,
    pub coinbase_tx_outputs: Vec<u8>,
    pub coinbase_tx_locktime: u32,
    pub template_id: u64,
}

/// What a [`CustomJob`] holds.
pub struct CustomJobView {
    pub declare_job: DeclareMiningJobView,
    pub set_new_prev_hash: SetNewPrevHashView,
    pub merkle_path: Seq<Seq<u8>>,
    pub signed_token: Seq<u8>,
    pub coinbase_tx_version: u32,
    pub coinbase_prefix: Seq<u8>,
    pub coinbase_tx_input_sequence: u32,
    pub coinbase_tx_value_remaining: u64,
    pub coinbase_tx_outputs: Seq<u8>,
    pub coinbase_tx_locktime: u32,
    pub template_id: u64,
}

impl View for CustomJob {
    type V = CustomJobView;

    open spec fn view(&self) -> CustomJobView {
        CustomJobView {
            declare_job: self.declare_job@,
            set_new_prev_hash: self.set_new_prev_hash@,
            merkle_path: text::bytes_of(self.merkle_path@),
            signed_token: self.signed_token@,
            coinbase_tx_version: self.coinbase_tx_version,
            coinbase_prefix: self.coinbase_prefix@,
            coinbase_tx_input_sequence: self.coinbase_tx_input_sequence,
            coinbase_tx_value_remaining: self.coinbase_tx_value_remaining,
            coinbase_tx_outputs: self.coinbase_tx_outputs@,
            coinbase_tx_locktime: self.coinbase_tx_locktime,
            template_id: self.template_id,
        }
    }
}

/// The custom job for a declared job, its template and a previous hash: the
/// coinbase outputs are those of the pool followed by those of the template.
pub open spec fn custom_job_view(
    job: DeclareMiningJobView,
    template: NewTemplateView,
    pool_outputs: Seq<u8>,
    prev_hash: SetNewPrevHashView,
    token: Seq<u8>,
) -> CustomJobView {
    CustomJobView {
        declare_job: job,
        set_new_prev_hash: prev_hash,
        merkle_path: template.merkle_path,
        signed_token: token,
        coinbase_tx_version: template.coinbase_tx_version,
        coinbase_prefix: template.coinbase_prefix,
        coinbase_tx_input_sequence: template.coinbase_tx_input_sequence,
        coinbase_tx_value_remaining: template.coinbase_tx_value_remaining,
        coinbase_tx_outputs: pool_outputs + template.coinbase_tx_outputs,
        coinbase_tx_locktime: template.coinbase_tx_locktime,
        template_id: template.template_id,
    }
}

impl CustomJob {
    /// Puts a custom job together.
    pub fn new(
        job: DeclareMiningJob,
        template: NewTemplate,
        pool_outputs: Vec<u8>,
        prev_hash: SetNewPrevHash,
        token: Vec<u8>,
    ) -> (r: CustomJob)
        ensures
            r@ == custom_job_view(job@, template@, pool_outputs@, prev_hash@, token@),
            r.declare_job == job,
            r.set_new_prev_hash == prev_hash,
            r.merkle_path == template.merkle_path,
            r.signed_token == token,
            r.coinbase_tx_version == template.coinbase_tx_version,
            r.coinbase_prefix == template.coinbase_prefix,
            r.coinbase_tx_input_sequence == template.coinbase_tx_input_sequence,
            r.coinbase_tx_value_remaining == template.coinbase_tx_value_remaining,
            r.coinbase_tx_outputs@ == pool_outputs@ + template.coinbase_tx_outputs@,
            r.coinbase_tx_locktime == template.coinbase_tx_locktime,
            r.template_id == template.template_id,
    {
        let mut outputs = pool_outputs;
        let mut template_outputs = template.coinbase_tx_outputs;
        outputs.append(&mut template_outputs);
        CustomJob {
            declare_job: job,
            set_new_prev_hash: prev_hash,
            merkle_path: template.merkle_path,
            signed_token: token,
            coinbase_tx_version: template.coinbase_tx_version,
            coinbase_prefix: template.coinbase_prefix,
            coinbase_tx_input_sequence: template.coinbase_tx_input_sequence,
            coinbase_tx_value_remaining: template.coinbase_tx_value_remaining,
            coinbase_tx_outputs: outputs,
            coinbase_tx_locktime: template.coinbase_tx_locktime,
            template_id: template.template_id,
        }
    }
}

/// A block solution, as it is submitted to the pool's job declarator.
#[derive(Debug)]
pub struct SubmitSolutionJd {
    pub extranonce: Vec<u8>,
    pub prev_hash: Vec<u8>,
    pub ntime: u32,
    pub nonce: u32,
    pub nbits: u32,
    pub version: u32,
}

/// A template is seen with every field that it has.
pub proof fn templates_are_seen_whole(m: NewTemplate)
    ensures
        m@.template_id == m.template_id,
        m@.future_template == m.future_template,
        m@.version == m.version,
        m@.coinbase_tx_version == m.coinbase_tx_version,
        m@.coinbase_prefix == m.coinbase_prefix@,
        m@.coinbase_tx_input_sequence == m.coinbase_tx_input_sequence,
        m@.coinbase_tx_value_remaining == m.coinbase_tx_value_remaining,
        m@.coinbase_tx_outputs_count == m.coinbase_tx_outputs_count,
        m@.coinbase_tx_outputs == m.coinbase_tx_outputs@,
        m@.coinbase_tx_locktime == m.coinbase_tx_locktime,
        m@.merkle_path == m.merkle_path@.map_values(|v: Vec<u8>| v@),
{
}

/// A previous hash is seen with every field that it has.
pub proof fn prev_hashes_are_seen_whole(m: SetNewPrevHash)
    ensures
        m@.template_id == m.template_id,
        m@.prev_hash == m.prev_hash@,
        m@.header_timestamp == m.header_timestamp,
        m@.n_bits == m.n_bits,
        m@.target == m.target@,
{
}

/// A declaration is seen with every field that it has.
pub proof fn declarations_are_seen_whole(m: DeclareMiningJob)
    ensures
        m@.request_id == m.request_id,
        m@.mining_job_token == m.mining_job_token@,
        m@.version == m.version,
        m@.coinbase_prefix == m.coinbase_prefix@,
        m@.coinbase_suffix == m.coinbase_suffix@,
        m@.tx_short_hash_nonce == m.tx_short_hash_nonce,
        m@.tx_short_hash_list == m.tx_short_hash_list@.map_values(|v: Vec<u8>| v@),
        m@.tx_hash_list_hash == m.tx_hash_list_hash@,
        m@.excess_data == m.excess_data@,
{
}

/// A declared job is seen with every field that it has.
pub proof fn declared_jobs_are_seen_whole(m: LastDeclareJob)
    ensures
        m@.declare_job == m.declare_job@,
        m@.template == m.template@,
        m@.coinbase_pool_output == m.coinbase_pool_output@,
        m@.tx_list == m.tx_list@.map_values(|v: Vec<u8>| v@),
{
}

/// A future job is seen with every field that it has.
pub proof fn future_jobs_are_seen_whole(m: FutureJob)
    ensures
        m@.job == m.job@,
        m@.template == m.template@,
        m@.pool_outputs == m.pool_outputs@,
{
}

/// A custom job is seen with every field that it has.
pub proof fn custom_jobs_are_seen_whole(m: CustomJob)
    ensures
        m@.declare_job == m.declare_job@,
        m@.set_new_prev_hash == m.set_new_prev_hash@,
        m@.merkle_path == m.merkle_path@.map_values(|v: Vec<u8>| v@),
        m@.signed_token == m.signed_token@,
        m@.coinbase_tx_version == m.coinbase_tx_version,
        m@.coinbase_prefix == m.coinbase_prefix@,
        m@.coinbase_tx_input_sequence == m.coinbase_tx_input_sequence,
        m@.coinbase_tx_value_remaining == m.coinbase_tx_value_remaining,
        m@.coinbase_tx_outputs == m.coinbase_tx_outputs@,
        m@.coinbase_tx_locktime == m.coinbase_tx_locktime,
        m@.template_id == m.template_id,
{
}

/// A custom job builds on the given previous hash under the given token; the rest is
/// the template's, but for the coinbase outputs, of which the pool's come first.
pub proof fn a_custom_job_is_made_of_its_template(
    job: DeclareMiningJobView,
    template: NewTemplateView,
    pool_outputs: Seq<u8>,
    prev_hash: SetNewPrevHashView,
    token: Seq<u8>,
)
    ensures
        ({
            let custom = custom_job_view(job, template, pool_outputs, prev_hash, token);
            &&& custom.declare_job == job
            &&& custom.set_new_prev_hash == prev_hash
            &&& custom.signed_token == token
            &&& custom.merkle_path == template.merkle_path
            &&& custom.coinbase_tx_version == template.coinbase_tx_version
            &&& custom.coinbase_prefix == template.coinbase_prefix
            &&& custom.coinbase_tx_input_sequence == template.coinbase_tx_input_sequence
            &&& custom.coinbase_tx_value_remaining == template.coinbase_tx_value_remaining
            &&& custom.coinbase_tx_outputs == pool_outputs + template.coinbase_tx_outputs
            &&& custom.coinbase_tx_locktime == template.coinbase_tx_locktime
            &&& custom.template_id == template.template_id
        }),
{
}

} // verus!
