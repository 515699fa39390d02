use superchain_client::eth::{Address, Hash256};
use superchain_client::fuel::ReceiptType;
use superchain_client::operation::{encode_operation, Operation};
use superchain_client::query::Bound;
use superchain_client::requests::{
    GetBlocksRequest, GetBtcBlocksRequest, GetBtcTxsRequest, GetErc20Request,
    GetFuelBlocksRequest, GetFuelReceiptsRequest, GetLogsRequest, GetUtxoRequest,
};
use superchain_client::types::ChainId;

#[test]
fn request_defaults_filter_ethereum_latest() {
    let r = GetBlocksRequest::default();
    assert_eq!(r.chains, vec![ChainId::ETH]);
    assert_eq!(r.from_block, Bound::Latest);
    assert_eq!(r.to_block, Bound::Latest);
    assert!(r.from_timestamp.is_none());
    assert!(r.to_timestamp.is_none());

    let r = GetBtcBlocksRequest::default();
    assert_eq!(r.chains, vec![ChainId::ETH]);

    let r = GetBtcTxsRequest::default();
    assert_eq!(r.from_block, Bound::Latest);

    let r = GetFuelBlocksRequest::default();
    assert!(r.da_block_number__gte.is_none());
    assert!(r.da_block_number__lte.is_none());

    let r = GetFuelReceiptsRequest::default();
    assert!(r.receipt_type__in.is_empty());
}

#[test]
fn single_shot_operations_encode_to_their_tag() {
    assert_eq!(encode_operation(&Operation::GetStatus), vec![0u8]);
    assert_eq!(encode_operation(&Operation::GetHeight), vec![1u8]);
}

#[test]
fn blocks_request_encodes_field_by_field() {
    let op = Operation::GetBlocks { params: GetBlocksRequest::default() };
    let expected: Vec<u8> = vec![
        2, // operation tag
        1, 0, // one chain
        1, 0, 0, 0, // ETH
        1, // from_block: latest
        1, // to_block: latest
        0, // no from_timestamp
        0, // no to_timestamp
    ];
    assert_eq!(encode_operation(&op), expected);
}

#[test]
fn bounds_and_options_encode_their_values() {
    let params = GetBlocksRequest {
        chains: vec![ChainId::BTC, ChainId::ARB],
        from_block: Bound::Exact(-2),
        to_block: Bound::FromLatest(5),
        from_timestamp: Some(1700000000),
        to_timestamp: None,
    };
    let op = Operation::GetBlocks { params };
    let mut expected: Vec<u8> = vec![2, 2, 0];
    expected.extend_from_slice(&198u32.to_le_bytes());
    expected.extend_from_slice(&42161u32.to_le_bytes());
    expected.push(0);
    expected.extend_from_slice(&(-2i64 as u64).to_le_bytes());
    expected.push(2);
    expected.extend_from_slice(&5u64.to_le_bytes());
    expected.push(1);
    expected.extend_from_slice(&(1700000000i64 as u64).to_le_bytes());
    expected.push(0);
    assert_eq!(encode_operation(&op), expected);
}

#[test]
fn receipt_filters_encode_one_byte_per_type() {
    let params = GetFuelReceiptsRequest {
        chains: vec![ChainId::FUEL],
        from_block: Bound::Latest,
        to_block: Bound::Subscribe,
        receipt_type__in: vec![ReceiptType::Call, ReceiptType::Burn],
    };
    let op = Operation::GetFuelReceipts { params };
    let mut expected: Vec<u8> = vec![6, 1, 0];
    expected.extend_from_slice(&122u32.to_le_bytes());
    expected.push(1); // latest
    expected.push(3); // subscribe
    expected.extend_from_slice(&[2, 0, 0, 12]);
    assert_eq!(encode_operation(&op), expected);
}

#[test]
fn log_filters_encode_addresses_and_topics() {
    let params = GetLogsRequest {
        chains: vec![],
        from_block: Bound::Latest,
        to_block: Bound::Latest,
        address__in: vec![Address([7u8; 20])],
        topic0__in: vec![Hash256([9u8; 32])],
        topic1__in: vec![],
        topic2__in: vec![],
        topic3__in: vec![],
    };
    let op = Operation::GetLogs { params };
    let mut expected: Vec<u8> = vec![7, 0, 0, 1, 1];
    expected.extend_from_slice(&[1, 0]);
    expected.extend_from_slice(&[7u8; 20]);
    expected.extend_from_slice(&[1, 0]);
    expected.extend_from_slice(&[9u8; 32]);
    expected.extend_from_slice(&[0, 0]);
    expected.extend_from_slice(&[0, 0]);
    expected.extend_from_slice(&[0, 0]);
    assert_eq!(encode_operation(&op), expected);
}

#[test]
fn token_filters_encode_text_members_with_lengths() {
    let params = GetErc20Request {
        chains: vec![],
        from_block: Bound::Latest,
        to_block: Bound::Latest,
        address__in: vec![],
        symbol__in: vec!["WETH".to_string(), "DAI".to_string()],
        name__in: vec![],
        decimals__gte: Some(6),
        decimals__lte: None,
    };
    let op = Operation::GetErc20 { params };
    let mut expected: Vec<u8> = vec![10, 0, 0, 1, 1, 0, 0];
    expected.extend_from_slice(&[2, 0]);
    expected.push(4);
    expected.extend_from_slice(b"WETH");
    expected.push(3);
    expected.extend_from_slice(b"DAI");
    expected.extend_from_slice(&[0, 0]);
    expected.extend_from_slice(&[1, 6]);
    expected.push(0);
    assert_eq!(encode_operation(&op), expected);
}

#[test]
fn utxo_filters_encode_the_unspent_bound() {
    let params = GetUtxoRequest {
        chains: vec![ChainId::FUEL],
        from_block: Bound::Subscribe,
        to_block: Bound::Latest,
        unspent_at: Bound::Exact(9),
        address__in: vec![Hash256([1u8; 32])],
    };
    let op = Operation::GetFuelUnspentUtxos { params };
    let mut expected: Vec<u8> = vec![16, 1, 0];
    expected.extend_from_slice(&122u32.to_le_bytes());
    expected.push(3);
    expected.push(1);
    expected.push(0);
    expected.extend_from_slice(&9u64.to_le_bytes());
    expected.extend_from_slice(&[1, 0]);
    expected.extend_from_slice(&[1u8; 32]);
    assert_eq!(encode_operation(&op), expected);
}
