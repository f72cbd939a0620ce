use dmnd_client::jd_client::utils::{
    checked_coinbase_output, get_coinbase_output, outputs_for_scripts, parse_tp_address,
    retry_connection, split_tp_address, CoinbaseOutput, Config, Error, Output, RetryAction, RetryEvent,
};
use dmnd_client::shared::error::PoisonedLock;

const COMPRESSED: &str = "0279be667ef9dcbbac55a06295ce870b07029bfcdb2dce28d959f2815b16f81798";
const UNCOMPRESSED: &str = "0479be667ef9dcbbac55a06295ce870b07029bfcdb2dce28d959f2815b16f81798483ada7726a3c4655da4fbfc0e1108a8fd17b448a68554199c47d08ffb10d4b8";

fn output(script_type: &str, value: &str) -> Output {
    Output {
        output_script_type: script_type.to_string(),
        output_script_value: value.to_string(),
    }
}

fn config(coinbase_outputs: Vec<Output>) -> Config {
    Config { coinbase_outputs, withhold: Some(true) }
}

#[test]
fn withhold_is_read_from_the_configuration() {
    assert_eq!(config(vec![]).withhold(), Some(true));
    assert_eq!(Config { coinbase_outputs: vec![], withhold: None }.withhold(), None);
}

#[test]
fn known_script_types_are_accepted() {
    for script_type in ["TEST", "P2PK", "P2PKH", "P2WPKH", "P2SH", "P2WSH", "P2TR"] {
        let accepted = CoinbaseOutput::try_from(&output(script_type, "value")).unwrap();
        assert_eq!(accepted.output_script_type, script_type);
        assert_eq!(accepted.output_script_value, "value");
    }
    for script_type in ["", "P2", "p2pkh", "P2PKHH"] {
        let refused = CoinbaseOutput::try_from(&output(script_type, "value"));
        assert_eq!(refused.err(), Some(Error::UnknownOutputScriptType));
    }
}

#[test]
fn coinbase_outputs_get_their_scripts_in_order() {
    let outs = get_coinbase_output(&config(vec![
        output("P2PK", COMPRESSED),
        output("P2WPKH", COMPRESSED),
        output("P2SH", "51"),
    ]))
    .unwrap();
    assert_eq!(outs.len(), 3);
    assert!(outs.iter().all(|out| out.value == 0));
    assert_eq!(outs[0].script_pubkey.len(), 35);
    assert_eq!(outs[0].script_pubkey[0], 0x21);
    assert_eq!(outs[0].script_pubkey[1], 0x02);
    assert_eq!(outs[0].script_pubkey[34], 0xac);
    assert_eq!(
        outs[1].script_pubkey,
        vec![
            0x00, 0x14, 0x75, 0x1e, 0x76, 0xe8, 0x19, 0x91, 0x96, 0xd4, 0x54, 0x94, 0x1c, 0x45,
            0xd1, 0xb3, 0xa3, 0x23, 0xf1, 0x43, 0x3b, 0xd6
        ]
    );
    assert_eq!(outs[2].script_pubkey.len(), 23);
    assert_eq!(outs[2].script_pubkey[0], 0xa9);
}

#[test]
fn the_first_bad_output_decides_the_error() {
    let unknown = output("P2", COMPRESSED);
    let invalid = output("P2PK", "xyz");
    let good = output("P2PK", COMPRESSED);
    let error = |outputs| get_coinbase_output(&config(outputs)).err();
    assert_eq!(error(vec![]), Some(Error::EmptyCoinbaseOutputs));
    assert_eq!(error(vec![good.clone(), unknown.clone()]), Some(Error::UnknownOutputScriptType));
    assert_eq!(error(vec![invalid.clone(), unknown.clone()]), Some(Error::InvalidOutputScript));
    assert_eq!(error(vec![unknown, invalid]), Some(Error::UnknownOutputScriptType));
    assert_eq!(error(vec![good]), None);
}

#[test]
fn uncompressed_witness_keys_are_found_before_they_are_used() {
    let bad = output("P2WPKH", UNCOMPRESSED);
    let good = output("P2PKH", UNCOMPRESSED);
    let unknown = output("P2", "");
    assert!(checked_coinbase_output(&config(vec![good.clone(), bad.clone()])).is_none());
    let refused = checked_coinbase_output(&config(vec![unknown, bad])).unwrap();
    assert_eq!(refused.err(), Some(Error::UnknownOutputScriptType));
    assert_eq!(checked_coinbase_output(&config(vec![good])).unwrap().unwrap().len(), 1);
    let not_a_key = output("P2WPKH", &UNCOMPRESSED.replace("0479", "0579"));
    let refused = checked_coinbase_output(&config(vec![not_a_key])).unwrap();
    assert_eq!(refused.err(), Some(Error::InvalidOutputScript));
}

#[test]
fn addresses_are_split_at_their_colons() {
    assert_eq!(split_tp_address("127.0.0.1:8442"), Some(("127.0.0.1".to_string(), 8442)));
    assert_eq!(split_tp_address("host:+080:rest"), Some(("host".to_string(), 80)));
    assert_eq!(split_tp_address(":65535"), Some((String::new(), 65535)));
    assert_eq!(split_tp_address("host:0"), Some(("host".to_string(), 0)));
    for bad in ["", "host", "host:", "host:+", "host:-1", "host:65536", "host: 1", "host:8x", "host::1"] {
        assert_eq!(split_tp_address(bad), None);
    }
    for port in ["1", "+1", "01", "99999999999999999999", "12a", "\u{661}"] {
        assert_eq!(
            split_tp_address(&format!("h:{}", port)).map(|parts| parts.1),
            port.parse::<u16>().ok()
        );
    }
}

#[test]
fn the_template_provider_address_is_parsed() {
    assert_eq!(
        parse_tp_address(Ok(Some("127.0.0.1:8442".to_string()))),
        Some(("127.0.0.1".to_string(), 8442, "127.0.0.1:8442".to_string()))
    );
    assert_eq!(parse_tp_address(Err(PoisonedLock)), None);
}

#[test]
fn reconnecting_goes_on_until_it_succeeds() {
    let next = |event| retry_connection("10.0.0.1:1", event);
    assert_eq!(next(RetryEvent::Tick), RetryAction::Connect("10.0.0.1:1".to_string()));
    assert_eq!(next(RetryEvent::Attempted { connected: false }), RetryAction::AwaitTick);
    assert_eq!(
        next(RetryEvent::Attempted { connected: true }),
        RetryAction::StoreAddress("10.0.0.1:1".to_string())
    );
    assert_eq!(next(RetryEvent::AddressStored { stored: true }), RetryAction::RestartProxy);
    assert_eq!(next(RetryEvent::AddressStored { stored: false }), RetryAction::Exit(1));
}

#[test]
fn scripts_become_outputs_of_value_zero() {
    let outs = outputs_for_scripts(vec![Ok(vec![1, 2]), Ok(vec![])]).unwrap();
    assert_eq!(outs.len(), 2);
    assert_eq!(outs[0].script_pubkey, vec![1, 2]);
    assert_eq!(outs[0].value, 0);
    assert!(outs[1].script_pubkey.is_empty());
    assert_eq!(outputs_for_scripts(vec![]).err(), Some(Error::EmptyCoinbaseOutputs));
    let mixed = vec![
        Ok(vec![1]),
        Err(Error::InvalidOutputScript),
        Err(Error::UnknownOutputScriptType),
    ];
    assert_eq!(outputs_for_scripts(mixed).err(), Some(Error::InvalidOutputScript));
}
