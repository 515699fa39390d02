use superchain_client::builder::ClientBuilder;
use superchain_client::client::{decode_height, keep_chunk, Client};
use superchain_client::error::Error;
use superchain_client::format::Format;
use superchain_client::fuel::{ReceiptType, TransactionType};
use superchain_client::types::{default_chains, ChainId};
use superchain_client::uniswap_v2::ReserveEvent;
use superchain_client::utils::serialize_comma_separated;

#[test]
fn chain_codes_and_names() {
    assert_eq!(ChainId::ETH.chain_code(), "ETH");
    assert_eq!(ChainId::Any.chain_code(), "ANY");
    assert_eq!(ChainId::BNB.chain_name(), "Binance Smart Chain");
    assert_eq!(ChainId::MATIC.chain_name(), "Polygon");
    assert!(ChainId::Any.is_any());
    assert!(!ChainId::BTC.is_any());
    assert_eq!(ChainId::default(), ChainId::ETH);
}

#[test]
fn chain_numeric_codes_round_trip() {
    for chain in [
        ChainId::Any,
        ChainId::ETH,
        ChainId::OPT,
        ChainId::BNB,
        ChainId::FUEL,
        ChainId::MATIC,
        ChainId::BTC,
        ChainId::MEVM,
        ChainId::ARB,
        ChainId::AVAX,
        ChainId::SEPETH,
    ] {
        assert_eq!(ChainId::from_num(chain.num()), Some(chain));
    }
    assert_eq!(ChainId::from_num(1115511), Some(ChainId::SEPETH));
    assert_eq!(ChainId::from_num(7), None);
}

#[test]
fn default_chain_filter_is_ethereum() {
    assert_eq!(default_chains(), vec![ChainId::ETH]);
}

#[test]
fn format_names() {
    assert_eq!(Format::Json.as_str(), "json");
    assert_eq!(Format::JsonStream.as_str(), "json_stream");
    assert_eq!(Format::Arrow.as_str(), "arrow");
    assert_eq!(Format::ArrowStream.as_str(), "arrow_stream");
    assert_eq!(Format::default(), Format::JsonStream);
}

#[test]
fn transaction_type_names_and_codes() {
    assert_eq!(TransactionType::Script.as_str(), "script");
    assert_eq!(TransactionType::Unknown.as_str(), "unknown");
    assert_eq!(TransactionType::try_from(2), Ok(TransactionType::Create));
    assert_eq!(TransactionType::try_from(5), Ok(TransactionType::Upload));
    assert_eq!(TransactionType::try_from(6), Err(Error::UnknownTransactionType(6)));
    assert_eq!(TransactionType::try_from(-1), Err(Error::UnknownTransactionType(-1)));
}

#[test]
fn receipt_type_names() {
    assert_eq!(ReceiptType::ScriptResult.as_str(), "ScriptResult");
    assert_eq!(ReceiptType::default(), ReceiptType::Call);
}

#[test]
fn reserve_event_names_and_codes() {
    assert_eq!(ReserveEvent::Swap.as_str(), "swap");
    assert_eq!(ReserveEvent::try_from(0), Ok(ReserveEvent::Mint));
    assert_eq!(ReserveEvent::try_from(3), Ok(ReserveEvent::Sync));
    assert_eq!(ReserveEvent::try_from(4), Err(Error::UnknownReserveEvent(4)));
}

#[test]
fn builder_defaults_and_urls() {
    let b = ClientBuilder::default();
    assert_eq!(b.endpoint, "app.superchain.network");
    assert!(b.is_secure);
    assert!(b.username.is_none());
    assert!(b.auth_header().is_none());
    assert_eq!(b.ws_url(), "wss://app.superchain.network/v1/websocket");
    assert_eq!(b.http_url(), "https://app.superchain.network/v1/api/");

    let b = ClientBuilder::default().endpoint("localhost:8080").secure(false);
    assert_eq!(b.ws_url(), "ws://localhost:8080/v1/websocket");
    assert_eq!(b.http_url(), "http://localhost:8080/v1/api/");
}

#[test]
fn builder_basic_auth_header() {
    let b = ClientBuilder::default().credential("user", "pass");
    let header = b.auth_header().expect("credential set");
    assert_eq!(header, b"Basic dXNlcjpwYXNz".to_vec());
}

#[test]
fn comma_separated_serialization() {
    assert_eq!(serialize_comma_separated(&vec![]), None);
    assert_eq!(
        serialize_comma_separated(&vec!["ETH".to_string()]),
        Some("ETH".to_string())
    );
    assert_eq!(
        serialize_comma_separated(&vec!["ETH".to_string(), "BTC".to_string(), "ARB".to_string()]),
        Some("ETH,BTC,ARB".to_string())
    );
}

#[test]
fn height_decoding() {
    assert_eq!(decode_height(&42u64.to_le_bytes()), Ok(42));
    assert_eq!(decode_height(b"short"), Err(Error::UnexpectedMessageFormat));
    assert_eq!(decode_height(b"way too long!"), Err(Error::UnexpectedMessageFormat));
}

#[test]
fn empty_chunks_are_dropped_by_the_stream_filter() {
    assert!(!keep_chunk(&Ok(vec![])));
    assert!(keep_chunk(&Ok(vec![1])));
    assert!(keep_chunk(&Err(Error::BackendShutDown)));
}

#[test]
fn client_wraps_a_provider() {
    let client = Client::new(17u32);
    assert_eq!(*client.provider(), 17);
}
