//! Configuration of the job declaration client and its template provider.
use vstd::prelude::*;

use bitcoin::{PublicKey, Script};
use std::str::FromStr;

use crate::shared::error::PoisonedLock;
use crate::text;
use crate::text::{copy_bytes, parse_port, same_text};

verus! {

/// What happened while the template provider is being reconnected to.
#[derive(Debug, Clone, Copy, PartialEq, Eq, Structural)]
pub enum RetryEvent {
    /// The next attempt is due.
    Tick,
    /// A connection attempt ended.
    Attempted { connected: bool },
    /// The address was written to its shared place, or that failed.
    AddressStored { stored: bool },
}

/// What to do next to get the template provider back.
#[derive(Debug, PartialEq, Eq)]
pub enum RetryAction {
    /// Try to connect to the address.
    Connect(String),
    /// Wait until the next attempt is due.
    AwaitTick,
    /// Make this the address of the template provider.
    StoreAddress(String),
    /// Mark the template provider as down, which restarts the proxy, and stop.
    RestartProxy,
    /// End the process with this exit code.
    Exit(i32),
}

/// The next step of reconnecting to a template provider: attempts are made until
/// one succeeds; its address is then stored and the proxy restarted.
pub fn retry_connection(address: &str, event: RetryEvent) -> (r: RetryAction)
    ensures
        match event {
            RetryEvent::Tick => r matches RetryAction::Connect(a) && a@ == address@,
            RetryEvent::Attempted { connected } => if connected {
                r matches RetryAction::StoreAddress(a) && a@ == address@
            } else {
                r is AwaitTick
            },
            RetryEvent::AddressStored { stored } => if stored {
                r is RestartProxy
            } else {
                r == RetryAction::Exit(1)
            },
        },
{
    match event {
        RetryEvent::Tick => RetryAction::Connect(address.to_owned()),
        RetryEvent::Attempted { connected } => {
            if connected {
                RetryAction::StoreAddress(address.to_owned())
            } else {
                RetryAction::AwaitTick
            }
        },
        RetryEvent::AddressStored { stored } => {
            if stored {
                RetryAction::RestartProxy
            } else {
                RetryAction::Exit(1)
            }
        },
    }
}

/// A coinbase output as it stands in the configuration.
#[derive(Debug, Clone)]
pub struct Output {
    pub output_script_type: String,
    pub output_script_value: String,
}

/// The configuration of the job declaration client.
#[derive(Debug, Clone)]
pub struct Config {
    pub coinbase_outputs: Vec<Output>,
    pub withhold: Option<bool>,
}

impl Config {
    /// Whether blocks are withheld, where the configuration says so.
    pub fn withhold(self) -> (r: Option<bool>)
        ensures
            r == self.withhold,
    {
        self.withhold
    }
}

/// Why the coinbase outputs of a configuration cannot be used.
#[derive(Debug, Clone, Copy, PartialEq, Eq, Structural)]
pub enum Error {
    UnknownOutputScriptType,
    InvalidOutputScript,
    EmptyCoinbaseOutputs,
}

/// A coinbase output of a known script type.
#[derive(Debug)]
pub struct CoinbaseOutput {
    pub output_script_type: String,
    pub output_script_value: String,
}

/// A transaction output.
#[derive(Debug)]
pub struct TxOut {
    pub value: u64,
    pub script_pubkey: Vec<u8>,
}

/// The script types that a coinbase output can have.
pub open spec fn known_script_type(script_type: Seq<char>) -> bool {
    ||| script_type == "TEST"@
    ||| script_type == "P2PK"@
    ||| script_type == "P2PKH"@
    ||| script_type == "P2WPKH"@
    ||| script_type == "P2SH"@
    ||| script_type == "P2WSH"@
    ||| script_type == "P2TR"@
}

/// Whether `bitcoin::PublicKey` can be read from a text, and then whether it is
/// in compressed form.
pub uninterp spec fn public_key_form(value: Seq<char>) -> Option<bool>;

/// The locking script that `roles_logic_sv2` builds for a known script type and
/// a value, where the value fits the type.
pub uninterp spec fn coinbase_script(script_type: Seq<char>, value: Seq<char>) -> Option<Seq<u8>>;

/// `bitcoin::PublicKey::from_str`: whether the text is a public key, and then
/// whether it is a compressed one.
#[verifier::external_body]
fn read_public_key(value: &str) -> (r: Option<bool>)
    ensures
        r == public_key_form(value@),
{
    PublicKey::from_str(value).ok().map(|key| key.compressed)
}

/// `Script::try_from` of `roles_logic_sv2::utils::CoinbaseOutput`: the script, or
/// nothing where the value does not fit the type, which for these types is its
/// only error. It panics on a P2WPKH output with an uncompressed key.
#[verifier::external_body]
fn build_coinbase_script(script_type: &str, value: &str) -> (r: Option<Vec<u8>>)
    requires
        known_script_type(script_type@),
        !(script_type@ == "P2WPKH"@ && public_key_form(value@) == Some(false)),
    ensures
        (match r {
            Some(script) => Some(script@),
            None => None,
        }) == coinbase_script(script_type@, value@),
{
    let output = roles_logic_sv2::utils::CoinbaseOutput {
        output_script_type: script_type.to_string(),
        output_script_value: value.to_string(),
    };
    Script::try_from(output).ok().map(|script| script.to_bytes())
}

impl CoinbaseOutput {
    /// A configured output, where its script type is a known one.
    pub fn try_from(pool_output: &Output) -> (r: Result<CoinbaseOutput, Error>)
        ensures
            match r {
                Ok(output) => {
                    &&& known_script_type(pool_output.output_script_type@)
                    &&& output.output_script_type@ == pool_output.output_script_type@
                    &&& output.output_script_value@ == pool_output.output_script_value@
                },
                Err(e) => {
                    &&& !known_script_type(pool_output.output_script_type@)
                    &&& e == Error::UnknownOutputScriptType
                },
            },
    {
        let script_type = pool_output.output_script_type.as_str();
        if same_text(script_type, "TEST") || same_text(script_type, "P2PK") || same_text(
            script_type,
            "P2PKH",
        ) || same_text(script_type, "P2WPKH") || same_text(script_type, "P2SH") || same_text(
            script_type,
            "P2WSH",
        ) || same_text(script_type, "P2TR") {
            Ok(
                CoinbaseOutput {
                    output_script_type: pool_output.output_script_type.clone(),
                    output_script_value: pool_output.output_script_value.clone(),
                },
            )
        } else {
            Err(Error::UnknownOutputScriptType)
        }
    }
}

/// The script of one configured output, or why it has none.
pub open spec fn output_script(output: Output) -> Result<Seq<u8>, Error> {
    if !known_script_type(output.output_script_type@) {
        Err(Error::UnknownOutputScriptType)
    } else {
        match coinbase_script(output.output_script_type@, output.output_script_value@) {
            Some(script) => Ok(script),
            None => Err(Error::InvalidOutputScript),
        }
    }
}

/// The scripts of configured outputs, in order, or the error of the first output
/// that has none.
pub open spec fn output_scripts(outputs: Seq<Output>) -> Result<Seq<Seq<u8>>, Error>
    decreases outputs.len(),
{
    if outputs.len() == 0 {
        Ok(Seq::empty())
    } else {
        match output_scripts(outputs.drop_last()) {
            Ok(scripts) => match output_script(outputs.last()) {
                Ok(script) => Ok(scripts.push(script)),
                Err(e) => Err(e),
            },
            Err(e) => Err(e),
        }
    }
}

/// Whether an output has no script because it is a P2WPKH output with an
/// uncompressed public key.
pub open spec fn uncompressed_witness_key(output: Output) -> bool {
    output.output_script_type@ == "P2WPKH"@ && public_key_form(output.output_script_value@)
        == Some(false)
}

/// Whether no P2WPKH output with an uncompressed key stands behind outputs that
/// all have a script.
pub open spec fn witness_keys_compressed(outputs: Seq<Output>) -> bool {
    forall|i: int|
        0 <= i < outputs.len() && output_scripts(outputs.take(i)) is Ok
            ==> !uncompressed_witness_key(#[trigger] outputs[i])
}

/// The result that a configuration's coinbase outputs lead to.
pub open spec fn is_coinbase_result(outputs: Seq<Output>, r: Result<Vec<TxOut>, Error>) -> bool {
    match output_scripts(outputs) {
        Err(e) => r == Err::<Vec<TxOut>, Error>(e),
        Ok(scripts) => if scripts.len() == 0 {
            r == Err::<Vec<TxOut>, Error>(Error::EmptyCoinbaseOutputs)
        } else {
            r matches Ok(outs) && outs@.len() == scripts.len() && forall|i: int|
                0 <= i < scripts.len() ==> (#[trigger] outs@[i]).value == 0
                    && outs@[i].script_pubkey@ == scripts[i]
        },
    }
}

/// An error on the way is the error of the whole.
proof fn lemma_error_is_final(outputs: Seq<Output>, k: int)
    requires
        0 <= k <= outputs.len(),
        output_scripts(outputs.take(k)) is Err,
    ensures
        output_scripts(outputs) == output_scripts(outputs.take(k)),
    decreases outputs.len(),
{
    if k == outputs.len() {
        assert(outputs.take(k) =~= outputs);
    } else {
        assert(outputs.drop_last().take(k) =~= outputs.take(k));
        lemma_error_is_final(outputs.drop_last(), k);
    }
}

/// Whether an error is the first among results.
pub open spec fn is_first_error(results: Seq<Result<Vec<u8>, Error>>, e: Error) -> bool {
    exists|i: int|
        0 <= i < results.len() && #[trigger] results[i] == Err::<Vec<u8>, Error>(e) && forall|j: int|
            0 <= j < i ==> (#[trigger] results[j]) is Ok
}

/// The outputs for scripts, each of value zero: the first script that could not be
/// built decides the error, and no script at all is an error too.
pub fn outputs_for_scripts(results: Vec<Result<Vec<u8>, Error>>) -> (r: Result<Vec<TxOut>, Error>)
    ensures
        match r {
            Ok(outs) => results@.len() > 0 && outs@.len() == results@.len() && forall|i: int|
                #![trigger results@[i]]
                #![trigger outs@[i]]
                0 <= i < results@.len() ==> results@[i] is Ok && outs@[i].value == 0
                    && outs@[i].script_pubkey@ == results@[i]->Ok_0@,
            Err(e) => if results@.len() == 0 {
                e == Error::EmptyCoinbaseOutputs
            } else {
                is_first_error(results@, e)
            },
        },
{
    let mut outs: Vec<TxOut> = Vec::new();
    for i in 0..results.len()
        invariant
            outs@.len() == i,
            forall|j: int|
                0 <= j < i ==> (#[trigger] results@[j]) is Ok && outs@[j].value == 0
                    && outs@[j].script_pubkey@ == results@[j]->Ok_0@,
    {
        match &results[i] {
            Ok(script) => {
                outs.push(TxOut { value: 0, script_pubkey: copy_bytes(script) });
            },
            Err(e) => {
                proof {
                    assert(results@[i as int] == Err::<Vec<u8>, Error>(*e));
                }
                return Err(*e);
            },
        }
    }
    if outs.len() == 0 {
        Err(Error::EmptyCoinbaseOutputs)
    } else {
        Ok(outs)
    }
}

/// The script of one configured output, or why it has none.
fn script_of(output: &Output) -> (r: Result<Vec<u8>, Error>)
    requires
        !uncompressed_witness_key(*output),
    ensures
        (match r {
            Ok(script) => Ok::<Seq<u8>, Error>(script@),
            Err(e) => Err(e),
        }) == output_script(*output),
{
    match CoinbaseOutput::try_from(output) {
        Ok(known) => match build_coinbase_script(
            known.output_script_type.as_str(),
            known.output_script_value.as_str(),
        ) {
            Some(script) => Ok(script),
            None => Err(Error::InvalidOutputScript),
        },
        Err(e) => Err(e),
    }
}

/// The outputs of the coinbase transaction: one of value zero for each configured
/// output, with its script. The first output that has no script decides the
/// error, and a configuration without outputs is an error too.
pub fn get_coinbase_output(config: &Config) -> (r: Result<Vec<TxOut>, Error>)
    requires
        witness_keys_compressed(config.coinbase_outputs@),
    ensures
        is_coinbase_result(config.coinbase_outputs@, r),
{
    let ghost outputs = config.coinbase_outputs@;
    let mut results: Vec<Result<Vec<u8>, Error>> = Vec::new();
    for i in 0..config.coinbase_outputs.len()
        invariant
            outputs == config.coinbase_outputs@,
            witness_keys_compressed(outputs),
            output_scripts(outputs.take(i as int)) matches Ok(scripts) && scripts.len() == i
                && results@.len() == i && forall|j: int|
                0 <= j < i ==> (#[trigger] results@[j]) is Ok && results@[j]->Ok_0@ == scripts[j],
    {
        proof {
            assert(outputs.take(i + 1).drop_last() =~= outputs.take(i as int));
            assert(outputs.take(i + 1).last() == outputs[i as int]);
        }
        let result = script_of(&config.coinbase_outputs[i]);
        let failed = result.is_err();
        results.push(result);
        if failed {
            proof {
                lemma_error_is_final(outputs, i + 1);
                assert(results@[i as int] is Err);
            }
            return outputs_for_scripts(results);
        }
    }
    proof {
        assert(outputs.take(outputs.len() as int) =~= outputs);
    }
    outputs_for_scripts(results)
}

/// Whether [`get_coinbase_output`] can be asked about a configuration.
fn keys_are_compressed(config: &Config) -> (r: bool)
    ensures
        r == witness_keys_compressed(config.coinbase_outputs@),
{
    let ghost outputs = config.coinbase_outputs@;
    for i in 0..config.coinbase_outputs.len()
        invariant
            outputs == config.coinbase_outputs@,
            output_scripts(outputs.take(i as int)) is Ok,
            forall|j: int| 0 <= j < i ==> !uncompressed_witness_key(#[trigger] outputs[j]),
    {
        let output = &config.coinbase_outputs[i];
        let witness = same_text(output.output_script_type.as_str(), "P2WPKH");
        let form = if witness {
            read_public_key(output.output_script_value.as_str())
        } else {
            None
        };
        if let Some(compressed) = form {
            if !compressed {
                proof {
                    assert(uncompressed_witness_key(outputs[i as int]));
                }
                return false;
            }
        }
        proof {
            assert(outputs.take(i + 1).drop_last() =~= outputs.take(i as int));
            assert(outputs.take(i + 1).last() == outputs[i as int]);
        }
        if script_of(output).is_err() {
            proof {
                assert forall|j: int|
                    0 <= j < outputs.len() && output_scripts(
                        outputs.take(j),
                    ) is Ok implies !uncompressed_witness_key(#[trigger] outputs[j]) by {
                    if j > i {
                        assert(outputs.take(j).take(i + 1) =~= outputs.take(i + 1));
                        lemma_error_is_final(outputs.take(j), i + 1);
                    }
                }
            }
            return true;
        }
    }
    true
}

/// The outputs of the coinbase transaction, as [`get_coinbase_output`] gives
/// them, or `None` where a P2WPKH output with an uncompressed key stands behind
/// outputs that all have a script.
pub fn checked_coinbase_output(config: &Config) -> (r: Option<Result<Vec<TxOut>, Error>>)
    ensures
        r is Some <==> witness_keys_compressed(config.coinbase_outputs@),
        r matches Some(outs) ==> is_coinbase_result(config.coinbase_outputs@, outs),
{
    if keys_are_compressed(config) {
        Some(get_coinbase_output(config))
    } else {
        None
    }
}

/// Where the field that starts at `from` ends: at the next colon, or at the end.
pub open spec fn field_end(s: Seq<char>, from: int) -> int
    decreases s.len() - from,
{
    if from >= s.len() || s[from] == ':' {
        from
    } else {
        field_end(s, from + 1)
    }
}

/// The host and the port of an address `host:port`: the text before the first
/// colon, and the port number between it and the next colon, or the end.
pub open spec fn host_and_port(address: Seq<char>) -> Option<(Seq<char>, u16)> {
    let host_end = field_end(address, 0);
    if host_end >= address.len() {
        None
    } else {
        let port_end = field_end(address, host_end + 1);
        match text::port_value(address.subrange(host_end + 1, port_end)) {
            Some(port) => Some((address.subrange(0, host_end), port)),
            None => None,
        }
    }
}

fn find_field_end(s: &str, from: usize) -> (r: usize)
    requires
        from <= s@.len(),
    ensures
        r == field_end(s@, from as int),
        from <= r <= s@.len(),
{
    let n = s.unicode_len();
    let mut i = from;
    while i < n && s.get_char(i) != ':'
        invariant
            n == s@.len(),
            from <= i <= n,
            field_end(s@, from as int) == field_end(s@, i as int),
        decreases n - i,
    {
        i = i + 1;
    }
    i
}

/// Splits an address `host:port`.
pub fn split_tp_address(tp_address: &str) -> (r: Option<(String, u16)>)
    ensures
        (match r {
            Some((host, port)) => Some((host@, port)),
            None => None,
        }) == host_and_port(tp_address@),
{
    let n = tp_address.unicode_len();
    let host_end = find_field_end(tp_address, 0);
    if host_end >= n {
        return None;
    }
    let port_end = find_field_end(tp_address, host_end + 1);
    match parse_port(tp_address.substring_char(host_end + 1, port_end)) {
        Some(port) => Some((tp_address.substring_char(0, host_end).to_owned(), port)),
        None => None,
    }
}

/// The host, the port and the whole of the template provider's address, or `None`
/// where the place that holds it was poisoned. An address must be there and have
/// the form `host:port`.
pub fn parse_tp_address(tp_address: Result<Option<String>, PoisonedLock>) -> (r: Option<
    (String, u16, String),
>)
    requires
        tp_address matches Ok(address) ==> address is Some && host_and_port(address->0@) is Some,
    ensures
        match tp_address {
            Err(_) => r is None,
            Ok(address) => r matches Some((host, port, whole)) && host_and_port(address->0@)
                == Some((host@, port)) && whole == address->0,
        },
{
    match tp_address {
        Ok(address) => {
            let whole = address.unwrap();
            let (host, port) = split_tp_address(whole.as_str()).unwrap();
            Some((host, port, whole))
        },
        Err(_) => None,
    }
}

/// An address that is put together from a host without a colon and a port number
/// is taken apart into that host and that port.
pub proof fn address_splits_into_its_parts(host: Seq<char>, port: Seq<char>)
    requires
        !host.contains(':'),
        !port.contains(':'),
        text::port_value(port) is Some,
    ensures
        host_and_port(host + seq![':'] + port) == Some((host, text::port_value(port)->0)),
{
    let address = host + seq![':'] + port;
    lemma_field_of(address, 0, host.len() as int);
    lemma_field_of(address, host.len() as int + 1, address.len() as int);
    assert(address.subrange(0, host.len() as int) =~= host);
    assert(address.subrange(host.len() as int + 1, address.len() as int) =~= port);
}

proof fn lemma_field_of(s: Seq<char>, from: int, end: int)
    requires
        0 <= from <= end <= s.len(),
        forall|i: int| from <= i < end ==> s[i] != ':',
        end < s.len() ==> s[end] == ':',
    ensures
        field_end(s, from) == end,
    decreases end - from,
{
    if from < end {
        lemma_field_of(s, from + 1, end);
    }
}

/// Seven script types are known, and no other.
pub proof fn seven_script_types_are_known(script_type: Seq<char>)
    ensures
        known_script_type(script_type) <==> seq![
            "TEST"@,
            "P2PK"@,
            "P2PKH"@,
            "P2WPKH"@,
            "P2SH"@,
            "P2WSH"@,
            "P2TR"@,
        ].contains(script_type),
{
    let types = seq!["TEST"@, "P2PK"@, "P2PKH"@, "P2WPKH"@, "P2SH"@, "P2WSH"@, "P2TR"@];
    if known_script_type(script_type) {
        assert(types[0] == "TEST"@ && types[1] == "P2PK"@ && types[2] == "P2PKH"@ && types[3]
            == "P2WPKH"@ && types[4] == "P2SH"@ && types[5] == "P2WSH"@ && types[6] == "P2TR"@);
    }
}

/// An output has the script of its own type and value. Where its type is not known that
/// is the error; where the value does not fit the type, that is.
pub proof fn an_output_has_the_script_of_its_value(output: Output)
    ensures
        !known_script_type(output.output_script_type@) ==> output_script(output) == Err::<
            Seq<u8>,
            Error,
        >(Error::UnknownOutputScriptType),
        known_script_type(output.output_script_type@) && coinbase_script(
            output.output_script_type@,
            output.output_script_value@,
        ) is None ==> output_script(output) == Err::<Seq<u8>, Error>(Error::InvalidOutputScript),
        known_script_type(output.output_script_type@) && coinbase_script(
            output.output_script_type@,
            output.output_script_value@,
        ) is Some ==> output_script(output) is Ok && Some(output_script(output)->Ok_0)
            == coinbase_script(output.output_script_type@, output.output_script_value@),
{
}

proof fn lemma_scripts_of_outputs(outputs: Seq<Output>)
    ensures
        output_scripts(outputs) is Ok <==> (forall|i: int|
            0 <= i < outputs.len() ==> output_script(#[trigger] outputs[i]) is Ok),
        output_scripts(outputs) matches Ok(scripts) ==> scripts.len() == outputs.len() && forall|
            i: int,
        |
            0 <= i < outputs.len() ==> output_script(#[trigger] outputs[i]) == Ok::<Seq<u8>, Error>(
                scripts[i],
            ),
        output_scripts(outputs) matches Err(e) ==> exists|i: int|
            0 <= i < outputs.len() && output_script(#[trigger] outputs[i]) == Err::<Seq<u8>, Error>(
                e,
            ) && forall|j: int| 0 <= j < i ==> output_script(#[trigger] outputs[j]) is Ok,
    decreases outputs.len(),
{
    if outputs.len() > 0 {
        let front = outputs.drop_last();
        let last = outputs.len() - 1;
        lemma_scripts_of_outputs(front);
        assert(outputs[last] == outputs.last());
        assert forall|i: int| 0 <= i < last implies front[i] == #[trigger] outputs[i] by {}
        match output_scripts(front) {
            Ok(_) => {
                assert forall|j: int| 0 <= j < last implies output_script(
                    #[trigger] outputs[j],
                ) is Ok by {
                    assert(output_script(front[j]) is Ok);
                }
            },
            Err(e) => {
                let i = choose|i: int|
                    0 <= i < front.len() && output_script(#[trigger] front[i]) == Err::<
                        Seq<u8>,
                        Error,
                    >(e) && forall|j: int|
                        0 <= j < i ==> output_script(#[trigger] front[j]) is Ok;
                assert(output_script(outputs[i]) == Err::<Seq<u8>, Error>(e));
                assert forall|j: int| 0 <= j < i implies output_script(
                    #[trigger] outputs[j],
                ) is Ok by {
                    assert(output_script(front[j]) is Ok);
                }
            },
        }
    }
}

/// Configured outputs that all have scripts become outputs of value zero with those
/// scripts, as many and in that order. Otherwise the error is that of the first
/// output without a script; only a configuration without outputs is empty.
pub proof fn every_configured_output_is_paid(outputs: Seq<Output>, r: Result<Vec<TxOut>, Error>)
    requires
        is_coinbase_result(outputs, r),
    ensures
        outputs.len() == 0 <==> r == Err::<Vec<TxOut>, Error>(Error::EmptyCoinbaseOutputs),
        r is Ok <==> outputs.len() > 0 && forall|i: int|
            0 <= i < outputs.len() ==> output_script(#[trigger] outputs[i]) is Ok,
        r matches Ok(outs) ==> outs@.len() == outputs.len() && forall|i: int|
            #![trigger outs@[i]]
            #![trigger outputs[i]]
            0 <= i < outputs.len() ==> outs@[i].value == 0 && output_script(outputs[i]) == Ok::<
                Seq<u8>,
                Error,
            >(outs@[i].script_pubkey@),
        r matches Err(e) ==> outputs.len() == 0 || exists|i: int|
            0 <= i < outputs.len() && output_script(#[trigger] outputs[i]) == Err::<Seq<u8>, Error>(
                e,
            ) && forall|j: int| 0 <= j < i ==> output_script(#[trigger] outputs[j]) is Ok,
{
    lemma_scripts_of_outputs(outputs);
}

/// The outputs of a configuration can be asked for unless a P2WPKH output with an
/// uncompressed public key stands behind outputs that all have scripts.
pub proof fn only_uncompressed_witness_keys_are_excluded(outputs: Seq<Output>)
    ensures
        witness_keys_compressed(outputs) <==> !exists|i: int|
            0 <= i < outputs.len() && (#[trigger] outputs[i]).output_script_type@ == "P2WPKH"@
                && public_key_form(outputs[i].output_script_value@) == Some(false) && forall|j: int|
                0 <= j < i ==> output_script(#[trigger] outputs[j]) is Ok,
{
    assert forall|i: int| 0 <= i < outputs.len() implies (output_scripts(
        #[trigger] outputs.take(i),
    ) is Ok <==> forall|j: int| 0 <= j < i ==> output_script(#[trigger] outputs[j]) is Ok) by {
        let front = outputs.take(i);
        lemma_scripts_of_outputs(front);
        assert forall|j: int| 0 <= j < i implies front[j] == #[trigger] outputs[j] by {}
        if output_scripts(front) is Ok {
            assert forall|j: int| 0 <= j < i implies output_script(#[trigger] outputs[j]) is Ok by {
                assert(output_script(front[j]) is Ok);
            }
        }
    }
    if witness_keys_compressed(outputs) {
        assert forall|i: int|
            0 <= i < outputs.len() && (#[trigger] outputs[i]).output_script_type@ == "P2WPKH"@
                && public_key_form(outputs[i].output_script_value@) == Some(false) implies !(forall|
            j: int,
        |
            0 <= j < i ==> output_script(#[trigger] outputs[j]) is Ok) by {
            assert(uncompressed_witness_key(outputs[i]));
            assert(output_scripts(outputs.take(i)) is Err);
        }
    } else {
        let i = choose|i: int|
            0 <= i < outputs.len() && output_scripts(outputs.take(i)) is Ok
                && uncompressed_witness_key(#[trigger] outputs[i]);
        assert(outputs[i].output_script_type@ == "P2WPKH"@);
    }
}

/// An error that stands behind successes only is the first one, and there is no other
/// first one.
pub proof fn there_is_one_first_error(
    results: Seq<Result<Vec<u8>, Error>>,
    e: Error,
    other: Error,
    i: int,
)
    ensures
        0 <= i < results.len() && results[i] == Err::<Vec<u8>, Error>(e) && (forall|j: int|
            0 <= j < i ==> (#[trigger] results[j]) is Ok) ==> is_first_error(results, e),
        is_first_error(results, e) && is_first_error(results, other) ==> e == other,
        is_first_error(results, e) ==> results.contains(Err(e)),
{
    if is_first_error(results, e) && is_first_error(results, other) {
        let a = choose|a: int|
            0 <= a < results.len() && #[trigger] results[a] == Err::<Vec<u8>, Error>(e) && forall|
                j: int,
            |
                0 <= j < a ==> (#[trigger] results[j]) is Ok;
        let b = choose|b: int|
            0 <= b < results.len() && #[trigger] results[b] == Err::<Vec<u8>, Error>(other)
                && forall|j: int| 0 <= j < b ==> (#[trigger] results[j]) is Ok;
        assert(results[a] is Err && results[b] is Err);
    }
}

/// An address is split at its first two colons: the host stands before the first, the
/// port between it and the second or the end, and what follows a second colon does
/// not count. A port that is none makes it no address, nor is a text without a colon
/// one.
pub proof fn an_address_is_split_at_its_colons(host: Seq<char>, port: Seq<char>, rest: Seq<char>)
    requires
        !host.contains(':'),
        !port.contains(':'),
    ensures
        host_and_port(host) is None,
        text::port_value(port) is None ==> host_and_port(host + seq![':'] + port) is None,
        text::port_value(port) is Some ==> host_and_port(host + seq![':'] + port) == Some(
            (host, text::port_value(port)->0),
        ),
        host_and_port(host + seq![':'] + port + seq![':'] + rest) == host_and_port(
            host + seq![':'] + port,
        ),
{
    let short = host + seq![':'] + port;
    let long = short + seq![':'] + rest;
    let h = host.len() as int;
    let e = short.len() as int;
    lemma_field_of(host, 0, h);
    lemma_field_of(short, 0, h);
    lemma_field_of(short, h + 1, e);
    lemma_field_of(long, 0, h);
    assert forall|i: int| h + 1 <= i < e implies long[i] != ':' by {
        assert(long[i] == port[i - h - 1]);
    }
    lemma_field_of(long, h + 1, e);
    assert(short.subrange(0, h) =~= host);
    assert(short.subrange(h + 1, e) =~= port);
    assert(long.subrange(0, h) =~= host);
    assert(long.subrange(h + 1, e) =~= port);
}

} // verus!
