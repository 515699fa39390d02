//! Logical operations a caller can request, and their payload encoding.
//!
//! An operation's payload is a binary rendering of its tag and flattened
//! filter fields: a tag byte, then each list with a 2-byte count and a
//! fixed-size item (4-byte chain codes, 20-byte addresses, 32-byte hashes,
//! 8-byte registers, one-byte type codes; text items carry a one-byte
//! length), bounds as a tag byte plus an 8-byte value where one is
//! carried, and optional fields as a presence byte plus the value.
//! Integers are little-endian. The encoding is deterministic and free of
//! side effects.

use vstd::prelude::*;

verus! {

use vstd::bytes::{spec_u16_to_le_bytes, spec_u32_to_le_bytes, spec_u64_to_le_bytes,
    u16_to_le_bytes, u32_to_le_bytes, u64_to_le_bytes};
use vstd::slice::slice_to_vec;
use vstd::string::StringSliceAdditionalSpecFns;
use vstd::utf8::encode_utf8;
use crate::types::{ChainId, spec_chain_num};
use crate::query::Bound;
use crate::eth::{Address, Hash256, Uint256};
use crate::fuel::{
    OrderChangeType, OrderType, ReceiptType, TransactionType, spec_order_change_type_num,
    spec_order_type_num, spec_receipt_type_num, spec_transaction_type_num,
};
use crate::requests::{
    GetBlocksRequest, GetBtcBlocksRequest, GetBtcTxsRequest, GetCrvPoolRequest,
    GetCrvTokenRequest, GetErc20Request, GetFuelBlocksRequest, GetFuelLogsRequest,
    GetFuelReceiptsRequest, GetFuelTxsRequest, GetLogsRequest, GetPairsRequest,
    GetSparkOrderRequest, GetTransfersRequest, GetTxsRequest, GetUtxoRequest,
};

/// The action one logical request asks of the server. Immutable once sent;
/// the session retains it only to replay it after a reconnect.
#[derive(Clone, Debug)]
pub enum Operation {
    /// Status of the services behind the endpoint.
    GetStatus,
    /// Current block height, as one 8-byte little-endian chunk.
    GetHeight,
    /// Stream of Ethereum-family blocks matching a filter.
    GetBlocks {
        /// The filter.
        params: GetBlocksRequest,
    },
    /// Stream of Bitcoin blocks matching a filter.
    GetBtcBlocks {
        /// The filter.
        params: GetBtcBlocksRequest,
    },
    /// Stream of Bitcoin transactions matching a filter.
    GetBtcTxs {
        /// The filter.
        params: GetBtcTxsRequest,
    },
    /// Stream of Fuel blocks matching a filter.
    GetFuelBlocks {
        /// The filter.
        params: GetFuelBlocksRequest,
    },
    /// Stream of Fuel receipts matching a filter.
    GetFuelReceipts {
        /// The filter.
        params: GetFuelReceiptsRequest,
    },
    /// Stream of Ethereum-family logs matching a filter.
    GetLogs {
        /// The filter.
        params: GetLogsRequest,
    },
    /// Stream of Ethereum-family transactions matching a filter.
    GetTxs {
        /// The filter.
        params: GetTxsRequest,
    },
    /// Stream of Ethereum-family transfers matching a filter.
    GetTransfers {
        /// The filter.
        params: GetTransfersRequest,
    },
    /// Stream of ERC-20 tokens matching a filter.
    GetErc20 {
        /// The filter.
        params: GetErc20Request,
    },
    /// Stream of Curve tokens matching a filter.
    GetCurveTokens {
        /// The filter.
        params: GetCrvTokenRequest,
    },
    /// Stream of Curve pools matching a filter.
    GetCurvePools {
        /// The filter.
        params: GetCrvPoolRequest,
    },
    /// Stream of Uniswap v2 pairs matching a filter.
    GetUniswapV2Pairs {
        /// The filter.
        params: GetPairsRequest,
    },
    /// Stream of Fuel logs matching a filter.
    GetFuelLogs {
        /// The filter.
        params: GetFuelLogsRequest,
    },
    /// Stream of Fuel transactions matching a filter.
    GetFuelTxs {
        /// The filter.
        params: GetFuelTxsRequest,
    },
    /// Stream of Fuel unspent outputs matching a filter.
    GetFuelUnspentUtxos {
        /// The filter.
        params: GetUtxoRequest,
    },
    /// Stream of Spark orders matching a filter.
    GetSparkOrder {
        /// The filter.
        params: GetSparkOrderRequest,
    },
}

/// Item bytes of a chain list: each chain's 4-byte code.
pub open spec fn spec_chain_items(chains: Seq<ChainId>) -> Seq<u8>
    decreases chains.len(),
{
    if chains.len() == 0 {
        Seq::empty()
    } else {
        spec_chain_items(chains.drop_last()) + spec_u32_to_le_bytes(
            spec_chain_num(chains.last()) as u32,
        )
    }
}

/// Bytes of a chain list: a 2-byte count, then each chain's 4-byte code.
pub open spec fn spec_chains_bytes(chains: Seq<ChainId>) -> Seq<u8> {
    spec_u16_to_le_bytes(chains.len() as u16) + spec_chain_items(chains)
}

/// Item bytes of an address list: 20 bytes each.
pub open spec fn spec_address_items(items: Seq<Address>) -> Seq<u8>
    decreases items.len(),
{
    if items.len() == 0 {
        Seq::empty()
    } else {
        spec_address_items(items.drop_last()) + items.last().0@
    }
}

/// Bytes of an address list: a 2-byte count, then 20 bytes each.
pub open spec fn spec_addresses_bytes(items: Seq<Address>) -> Seq<u8> {
    spec_u16_to_le_bytes(items.len() as u16) + spec_address_items(items)
}

/// Item bytes of a hash list: 32 bytes each.
pub open spec fn spec_hash_items(items: Seq<Hash256>) -> Seq<u8>
    decreases items.len(),
{
    if items.len() == 0 {
        Seq::empty()
    } else {
        spec_hash_items(items.drop_last()) + items.last().0@
    }
}

/// Bytes of a hash list: a 2-byte count, then 32 bytes each.
pub open spec fn spec_hashes_bytes(items: Seq<Hash256>) -> Seq<u8> {
    spec_u16_to_le_bytes(items.len() as u16) + spec_hash_items(items)
}

/// Item bytes of a register list: 8 bytes each.
pub open spec fn spec_u64_items(items: Seq<u64>) -> Seq<u8>
    decreases items.len(),
{
    if items.len() == 0 {
        Seq::empty()
    } else {
        spec_u64_items(items.drop_last()) + spec_u64_to_le_bytes(items.last())
    }
}

/// Bytes of a register list: a 2-byte count, then 8 bytes each.
pub open spec fn spec_u64s_bytes(items: Seq<u64>) -> Seq<u8> {
    spec_u16_to_le_bytes(items.len() as u16) + spec_u64_items(items)
}

/// Item bytes of a text list: a one-byte length, then the UTF-8 bytes.
pub open spec fn spec_string_items(items: Seq<String>) -> Seq<u8>
    decreases items.len(),
{
    if items.len() == 0 {
        Seq::empty()
    } else {
        spec_string_items(items.drop_last()) + seq![
            encode_utf8(items.last()@).len() as u8,
        ] + encode_utf8(items.last()@)
    }
}

/// Bytes of a text list: a 2-byte count, then each item with its length.
pub open spec fn spec_strings_bytes(items: Seq<String>) -> Seq<u8> {
    spec_u16_to_le_bytes(items.len() as u16) + spec_string_items(items)
}

/// Every text item fits its one-byte length field.
pub open spec fn strings_ok(items: Seq<String>) -> bool {
    forall|i: int| 0 <= i < items.len() ==> encode_utf8(#[trigger] items[i]@).len() <= 255
}

/// Item bytes of a transaction-type list: one code byte each.
pub open spec fn spec_txtype_items(items: Seq<TransactionType>) -> Seq<u8>
    decreases items.len(),
{
    if items.len() == 0 {
        Seq::empty()
    } else {
        spec_txtype_items(items.drop_last()).push(spec_transaction_type_num(items.last()) as u8)
    }
}

/// Bytes of a transaction-type list: a 2-byte count, then one byte each.
pub open spec fn spec_txtypes_bytes(items: Seq<TransactionType>) -> Seq<u8> {
    spec_u16_to_le_bytes(items.len() as u16) + spec_txtype_items(items)
}

/// Item bytes of an order-side list: one code byte each.
pub open spec fn spec_ordertype_items(items: Seq<OrderType>) -> Seq<u8>
    decreases items.len(),
{
    if items.len() == 0 {
        Seq::empty()
    } else {
        spec_ordertype_items(items.drop_last()).push(spec_order_type_num(items.last()) as u8)
    }
}

/// Bytes of an order-side list: a 2-byte count, then one byte each.
pub open spec fn spec_ordertypes_bytes(items: Seq<OrderType>) -> Seq<u8> {
    spec_u16_to_le_bytes(items.len() as u16) + spec_ordertype_items(items)
}

/// Item bytes of a state-change list: one code byte each.
pub open spec fn spec_changetype_items(items: Seq<OrderChangeType>) -> Seq<u8>
    decreases items.len(),
{
    if items.len() == 0 {
        Seq::empty()
    } else {
        spec_changetype_items(items.drop_last()).push(
            spec_order_change_type_num(items.last()) as u8,
        )
    }
}

/// Bytes of a state-change list: a 2-byte count, then one byte each.
pub open spec fn spec_changetypes_bytes(items: Seq<OrderChangeType>) -> Seq<u8> {
    spec_u16_to_le_bytes(items.len() as u16) + spec_changetype_items(items)
}

/// Item bytes of a receipt-type list: one code byte each.
pub open spec fn spec_receipt_items(types: Seq<ReceiptType>) -> Seq<u8>
    decreases types.len(),
{
    if types.len() == 0 {
        Seq::empty()
    } else {
        spec_receipt_items(types.drop_last()).push(spec_receipt_type_num(types.last()) as u8)
    }
}

/// Bytes of a receipt-type list: a 2-byte count, then one code byte each.
pub open spec fn spec_receipts_bytes(types: Seq<ReceiptType>) -> Seq<u8> {
    spec_u16_to_le_bytes(types.len() as u16) + spec_receipt_items(types)
}

/// Bytes of a bound: a tag byte, then an 8-byte value where one is carried.
/// An exact height is carried as its two's-complement bits.
pub open spec fn spec_bound_bytes(b: Bound) -> Seq<u8> {
    match b {
        Bound::Exact(n) => seq![0u8] + spec_u64_to_le_bytes(n as u64),
        Bound::Latest => seq![1u8],
        Bound::FromLatest(n) => seq![2u8] + spec_u64_to_le_bytes(n),
        Bound::Subscribe => seq![3u8],
    }
}

/// Bytes of an optional unsigned field: a presence byte, then the value.
pub open spec fn spec_opt_u64_bytes(v: Option<u64>) -> Seq<u8> {
    match v {
        Option::None => seq![0u8],
        Option::Some(n) => seq![1u8] + spec_u64_to_le_bytes(n),
    }
}

/// Bytes of an optional signed field: a presence byte, then the value's
/// two's-complement bits.
pub open spec fn spec_opt_i64_bytes(v: Option<i64>) -> Seq<u8> {
    match v {
        Option::None => seq![0u8],
        Option::Some(n) => seq![1u8] + spec_u64_to_le_bytes(n as u64),
    }
}

/// Bytes of an optional amount: a presence byte, then 32 bytes.
pub open spec fn spec_opt_u256_bytes(v: Option<Uint256>) -> Seq<u8> {
    match v {
        Option::None => seq![0u8],
        Option::Some(a) => seq![1u8] + a.0@,
    }
}

/// Bytes of an optional byte-sized field: a presence byte, then the value.
pub open spec fn spec_opt_u8_bytes(v: Option<u8>) -> Seq<u8> {
    match v {
        Option::None => seq![0u8],
        Option::Some(n) => seq![1u8, n],
    }
}

/// Whether an operation's lists fit their count fields: every list at
/// most `u16::MAX` items, every text item at most 255 bytes.
pub open spec fn operation_valid(op: Operation) -> bool {
    match op {
        Operation::GetStatus => true,
        Operation::GetHeight => true,
        Operation::GetBlocks { params } => params.chains@.len() <= u16::MAX,
        Operation::GetBtcBlocks { params } => params.chains@.len() <= u16::MAX,
        Operation::GetBtcTxs { params } => params.chains@.len() <= u16::MAX,
        Operation::GetFuelBlocks { params } => params.chains@.len() <= u16::MAX,
        Operation::GetFuelReceipts { params } => params.chains@.len() <= u16::MAX
            && params.receipt_type__in@.len() <= u16::MAX,
        Operation::GetLogs { params } => params.chains@.len() <= u16::MAX
            && params.address__in@.len() <= u16::MAX && params.topic0__in@.len() <= u16::MAX
            && params.topic1__in@.len() <= u16::MAX && params.topic2__in@.len() <= u16::MAX
            && params.topic3__in@.len() <= u16::MAX,
        Operation::GetTxs { params } => params.chains@.len() <= u16::MAX
            && params.from__in@.len() <= u16::MAX && params.to__in@.len() <= u16::MAX,
        Operation::GetTransfers { params } => params.chains@.len() <= u16::MAX
            && params.address__in@.len() <= u16::MAX && params.to__in@.len() <= u16::MAX
            && params.from__in@.len() <= u16::MAX,
        Operation::GetErc20 { params } => params.chains@.len() <= u16::MAX
            && params.address__in@.len() <= u16::MAX && params.symbol__in@.len() <= u16::MAX
            && params.name__in@.len() <= u16::MAX && strings_ok(params.symbol__in@)
            && strings_ok(params.name__in@),
        Operation::GetCurveTokens { params } => params.chains@.len() <= u16::MAX
            && params.address__in@.len() <= u16::MAX && params.symbol__in@.len() <= u16::MAX
            && params.name__in@.len() <= u16::MAX && params.pool_address__in@.len() <= u16::MAX
            && strings_ok(params.symbol__in@) && strings_ok(params.name__in@),
        Operation::GetCurvePools { params } => params.chains@.len() <= u16::MAX
            && params.pool_address__in@.len() <= u16::MAX && params.token__in@.len() <= u16::MAX
            && params.owner__in@.len() <= u16::MAX && params.base_pool__in@.len() <= u16::MAX
            && params.coins__in@.len() <= u16::MAX && params.base_coins__in@.len() <= u16::MAX,
        Operation::GetUniswapV2Pairs { params } => params.chains@.len() <= u16::MAX
            && params.pair_address__in@.len() <= u16::MAX
            && params.factory_address__in@.len() <= u16::MAX && params.token0__in@.len()
            <= u16::MAX && params.token1__in@.len() <= u16::MAX && params.tokens__in@.len()
            <= u16::MAX,
        Operation::GetFuelLogs { params } => params.chains@.len() <= u16::MAX
            && params.id__in@.len() <= u16::MAX && params.ra__in@.len() <= u16::MAX
            && params.rb__in@.len() <= u16::MAX,
        Operation::GetFuelTxs { params } => params.chains@.len() <= u16::MAX
            && params.transaction_type__in@.len() <= u16::MAX
            && params.metadata_contract_id__in@.len() <= u16::MAX
            && params.input_contract_contract_id__in@.len() <= u16::MAX
            && params.mint_asset_id__in@.len() <= u16::MAX,
        Operation::GetFuelUnspentUtxos { params } => params.chains@.len() <= u16::MAX
            && params.address__in@.len() <= u16::MAX,
        Operation::GetSparkOrder { params } => params.chains@.len() <= u16::MAX
            && params.order_id__in@.len() <= u16::MAX && params.order_type__in@.len() <= u16::MAX
            && params.state_type__in@.len() <= u16::MAX && params.user__in@.len() <= u16::MAX
            && params.owner__in@.len() <= u16::MAX && params.asset__in@.len() <= u16::MAX
            && params.address__in@.len() <= u16::MAX,
    }
}

/// Payload bytes of an operation: a tag byte, then the flattened filter
/// fields of its variant.
pub open spec fn spec_encode_operation(op: Operation) -> Seq<u8> {
    match op {
        Operation::GetStatus => seq![0u8],
        Operation::GetHeight => seq![1u8],
        Operation::GetBlocks { params } => seq![2u8] + spec_chains_bytes(params.chains@)
            + spec_bound_bytes(params.from_block) + spec_bound_bytes(params.to_block)
            + spec_opt_i64_bytes(params.from_timestamp) + spec_opt_i64_bytes(
            params.to_timestamp,
        ),
        Operation::GetBtcBlocks { params } => seq![3u8] + spec_chains_bytes(params.chains@)
            + spec_bound_bytes(params.from_block) + spec_bound_bytes(params.to_block),
        Operation::GetBtcTxs { params } => seq![4u8] + spec_chains_bytes(params.chains@)
            + spec_bound_bytes(params.from_block) + spec_bound_bytes(params.to_block),
        Operation::GetFuelBlocks { params } => seq![5u8] + spec_chains_bytes(params.chains@)
            + spec_bound_bytes(params.from_block) + spec_bound_bytes(params.to_block)
            + spec_opt_u64_bytes(params.da_block_number__gte) + spec_opt_u64_bytes(
            params.da_block_number__lte,
        ),
        Operation::GetFuelReceipts { params } => seq![6u8] + spec_chains_bytes(params.chains@)
            + spec_bound_bytes(params.from_block) + spec_bound_bytes(params.to_block)
            + spec_receipts_bytes(params.receipt_type__in@),
        Operation::GetLogs { params } => seq![7u8] + spec_chains_bytes(params.chains@)
            + spec_bound_bytes(params.from_block) + spec_bound_bytes(params.to_block)
            + spec_addresses_bytes(params.address__in@) + spec_hashes_bytes(params.topic0__in@)
            + spec_hashes_bytes(params.topic1__in@) + spec_hashes_bytes(params.topic2__in@)
            + spec_hashes_bytes(params.topic3__in@),
        Operation::GetTxs { params } => seq![8u8] + spec_chains_bytes(params.chains@)
            + spec_bound_bytes(params.from_block) + spec_bound_bytes(params.to_block)
            + spec_addresses_bytes(params.from__in@) + spec_addresses_bytes(params.to__in@)
            + spec_opt_u256_bytes(params.value__gte) + spec_opt_u256_bytes(params.value__lte)
            + spec_opt_u256_bytes(params.gas_price__gte) + spec_opt_u256_bytes(
            params.gas_price__lte,
        ) + spec_opt_u256_bytes(params.gas__gte) + spec_opt_u256_bytes(params.gas__lte)
            + spec_opt_u256_bytes(params.max_fee_per_gas__gte) + spec_opt_u256_bytes(
            params.max_fee_per_gas__lte,
        ) + spec_opt_u256_bytes(params.max_priority_fee_per_gas__gte) + spec_opt_u256_bytes(
            params.max_priority_fee_per_gas__lte,
        ),
        Operation::GetTransfers { params } => seq![9u8] + spec_chains_bytes(params.chains@)
            + spec_bound_bytes(params.from_block) + spec_bound_bytes(params.to_block)
            + spec_addresses_bytes(params.address__in@) + spec_addresses_bytes(params.to__in@)
            + spec_addresses_bytes(params.from__in@) + spec_opt_u256_bytes(params.value__lte)
            + spec_opt_u256_bytes(params.value__gte),
        Operation::GetErc20 { params } => seq![10u8] + spec_chains_bytes(params.chains@)
            + spec_bound_bytes(params.from_block) + spec_bound_bytes(params.to_block)
            + spec_addresses_bytes(params.address__in@) + spec_strings_bytes(params.symbol__in@)
            + spec_strings_bytes(params.name__in@) + spec_opt_u8_bytes(params.decimals__gte)
            + spec_opt_u8_bytes(params.decimals__lte),
        Operation::GetCurveTokens { params } => seq![11u8] + spec_chains_bytes(params.chains@)
            + spec_bound_bytes(params.from_block) + spec_bound_bytes(params.to_block)
            + spec_addresses_bytes(params.address__in@) + spec_strings_bytes(params.symbol__in@)
            + spec_strings_bytes(params.name__in@) + spec_addresses_bytes(
            params.pool_address__in@,
        ) + spec_opt_u8_bytes(params.decimals__gte) + spec_opt_u8_bytes(params.decimals__lte),
        Operation::GetCurvePools { params } => seq![12u8] + spec_chains_bytes(params.chains@)
            + spec_bound_bytes(params.from_block) + spec_bound_bytes(params.to_block)
            + spec_addresses_bytes(params.pool_address__in@) + spec_addresses_bytes(
            params.token__in@,
        ) + spec_addresses_bytes(params.owner__in@) + spec_addresses_bytes(params.base_pool__in@)
            + spec_addresses_bytes(params.coins__in@) + spec_addresses_bytes(
            params.base_coins__in@,
        ) + spec_opt_u256_bytes(params.fee__gte) + spec_opt_u256_bytes(params.fee__lte)
            + spec_opt_u256_bytes(params.admin_fee__gte) + spec_opt_u256_bytes(
            params.admin_fee__lte,
        ) + spec_opt_u256_bytes(params.initial_a__gte) + spec_opt_u256_bytes(
            params.initial_a__lte,
        ) + spec_opt_u256_bytes(params.future_a__gte) + spec_opt_u256_bytes(params.future_a__lte)
            + spec_opt_u256_bytes(params.initial_a_time__gte) + spec_opt_u256_bytes(
            params.initial_a_time__lte,
        ) + spec_opt_u256_bytes(params.future_a_time__gte) + spec_opt_u256_bytes(
            params.future_a_time__lte,
        ) + spec_opt_u8_bytes(params.n_coins__gte) + spec_opt_u8_bytes(params.n_coins__lte),
        Operation::GetUniswapV2Pairs { params } => seq![13u8] + spec_chains_bytes(params.chains@)
            + spec_bound_bytes(params.from_block) + spec_bound_bytes(params.to_block)
            + spec_addresses_bytes(params.pair_address__in@) + spec_addresses_bytes(
            params.factory_address__in@,
        ) + spec_addresses_bytes(params.token0__in@) + spec_addresses_bytes(params.token1__in@)
            + spec_addresses_bytes(params.tokens__in@),
        Operation::GetFuelLogs { params } => seq![14u8] + spec_chains_bytes(params.chains@)
            + spec_bound_bytes(params.from_block) + spec_bound_bytes(params.to_block)
            + spec_hashes_bytes(params.id__in@) + spec_u64s_bytes(params.ra__in@)
            + spec_u64s_bytes(params.rb__in@),
        Operation::GetFuelTxs { params } => seq![15u8] + spec_chains_bytes(params.chains@)
            + spec_bound_bytes(params.from_block) + spec_bound_bytes(params.to_block)
            + spec_txtypes_bytes(params.transaction_type__in@) + spec_hashes_bytes(
            params.metadata_contract_id__in@,
        ) + spec_hashes_bytes(params.input_contract_contract_id__in@) + spec_hashes_bytes(
            params.mint_asset_id__in@,
        ) + spec_opt_u64_bytes(params.mint_amount__lte) + spec_opt_u64_bytes(
            params.mint_amount__gte,
        ),
        Operation::GetFuelUnspentUtxos { params } => seq![16u8] + spec_chains_bytes(
            params.chains@,
        ) + spec_bound_bytes(params.from_block) + spec_bound_bytes(params.to_block)
            + spec_bound_bytes(params.unspent_at) + spec_hashes_bytes(params.address__in@),
        Operation::GetSparkOrder { params } => seq![17u8] + spec_chains_bytes(params.chains@)
            + spec_bound_bytes(params.from_block) + spec_bound_bytes(params.to_block)
            + spec_hashes_bytes(params.order_id__in@) + spec_ordertypes_bytes(
            params.order_type__in@,
        ) + spec_changetypes_bytes(params.state_type__in@) + spec_hashes_bytes(params.user__in@)
            + spec_hashes_bytes(params.owner__in@) + spec_hashes_bytes(params.asset__in@)
            + spec_hashes_bytes(params.address__in@),
    }
}

/// A chain list takes four bytes per chain.
proof fn lemma_chain_items_len(chains: Seq<ChainId>)
    ensures
        spec_chain_items(chains).len() == 4 * chains.len(),
    decreases chains.len(),
{
    vstd::bytes::lemma_auto_spec_u32_to_from_le_bytes();
    if chains.len() > 0 {
        lemma_chain_items_len(chains.drop_last());
    }
}

/// An address list takes twenty bytes per address.
proof fn lemma_address_items_len(items: Seq<Address>)
    ensures
        spec_address_items(items).len() == 20 * items.len(),
    decreases items.len(),
{
    if items.len() > 0 {
        lemma_address_items_len(items.drop_last());
        assert(items.last().0@.len() == 20);
    }
}

/// A hash list takes thirty-two bytes per hash.
proof fn lemma_hash_items_len(items: Seq<Hash256>)
    ensures
        spec_hash_items(items).len() == 32 * items.len(),
    decreases items.len(),
{
    if items.len() > 0 {
        lemma_hash_items_len(items.drop_last());
        assert(items.last().0@.len() == 32);
    }
}

/// A register list takes eight bytes per value.
proof fn lemma_u64_items_len(items: Seq<u64>)
    ensures
        spec_u64_items(items).len() == 8 * items.len(),
    decreases items.len(),
{
    vstd::bytes::lemma_auto_spec_u64_to_from_le_bytes();
    if items.len() > 0 {
        lemma_u64_items_len(items.drop_last());
    }
}

/// A text list takes at most 256 bytes per item when every item fits its
/// one-byte length field.
proof fn lemma_string_items_len(items: Seq<String>)
    requires
        strings_ok(items),
    ensures
        spec_string_items(items).len() <= 256 * items.len(),
    decreases items.len(),
{
    if items.len() > 0 {
        assert(strings_ok(items.drop_last())) by {
            assert(forall|i: int|
                0 <= i < items.len() - 1 ==> encode_utf8(
                    #[trigger] items.drop_last()[i]@,
                ).len() <= 255);
        }
        lemma_string_items_len(items.drop_last());
        assert(encode_utf8(items[items.len() - 1]@).len() <= 255);
    }
}

/// A type-code list takes one byte per item.
proof fn lemma_txtype_items_len(items: Seq<TransactionType>)
    ensures
        spec_txtype_items(items).len() == items.len(),
    decreases items.len(),
{
    if items.len() > 0 {
        lemma_txtype_items_len(items.drop_last());
    }
}

/// A type-code list takes one byte per item.
proof fn lemma_ordertype_items_len(items: Seq<OrderType>)
    ensures
        spec_ordertype_items(items).len() == items.len(),
    decreases items.len(),
{
    if items.len() > 0 {
        lemma_ordertype_items_len(items.drop_last());
    }
}

/// A type-code list takes one byte per item.
proof fn lemma_changetype_items_len(items: Seq<OrderChangeType>)
    ensures
        spec_changetype_items(items).len() == items.len(),
    decreases items.len(),
{
    if items.len() > 0 {
        lemma_changetype_items_len(items.drop_last());
    }
}

/// A type-code list takes one byte per item.
proof fn lemma_receipt_items_len(types: Seq<ReceiptType>)
    ensures
        spec_receipt_items(types).len() == types.len(),
    decreases types.len(),
{
    if types.len() > 0 {
        lemma_receipt_items_len(types.drop_last());
    }
}

/// A valid operation's payload stays far below any machine limit.
pub proof fn lemma_encode_operation_len(op: Operation)
    requires
        operation_valid(op),
    ensures
        spec_encode_operation(op).len() <= 100000000,
{
    vstd::bytes::lemma_auto_spec_u16_to_from_le_bytes();
    vstd::bytes::lemma_auto_spec_u64_to_from_le_bytes();
    match op {
        Operation::GetStatus => {},
        Operation::GetHeight => {},
        Operation::GetBlocks { params } => {
            lemma_chain_items_len(params.chains@);
        },
        Operation::GetBtcBlocks { params } => {
            lemma_chain_items_len(params.chains@);
        },
        Operation::GetBtcTxs { params } => {
            lemma_chain_items_len(params.chains@);
        },
        Operation::GetFuelBlocks { params } => {
            lemma_chain_items_len(params.chains@);
        },
        Operation::GetFuelReceipts { params } => {
            lemma_chain_items_len(params.chains@);
            lemma_receipt_items_len(params.receipt_type__in@);
        },
        Operation::GetLogs { params } => {
            lemma_chain_items_len(params.chains@);
            lemma_address_items_len(params.address__in@);
            lemma_hash_items_len(params.topic0__in@);
            lemma_hash_items_len(params.topic1__in@);
            lemma_hash_items_len(params.topic2__in@);
            lemma_hash_items_len(params.topic3__in@);
        },
        Operation::GetTxs { params } => {
            lemma_chain_items_len(params.chains@);
            lemma_address_items_len(params.from__in@);
            lemma_address_items_len(params.to__in@);
        },
        Operation::GetTransfers { params } => {
            lemma_chain_items_len(params.chains@);
            lemma_address_items_len(params.address__in@);
            lemma_address_items_len(params.to__in@);
            lemma_address_items_len(params.from__in@);
        },
        Operation::GetErc20 { params } => {
            lemma_chain_items_len(params.chains@);
            lemma_address_items_len(params.address__in@);
            lemma_string_items_len(params.symbol__in@);
            lemma_string_items_len(params.name__in@);
        },
        Operation::GetCurveTokens { params } => {
            lemma_chain_items_len(params.chains@);
            lemma_address_items_len(params.address__in@);
            lemma_string_items_len(params.symbol__in@);
            lemma_string_items_len(params.name__in@);
            lemma_address_items_len(params.pool_address__in@);
        },
        Operation::GetCurvePools { params } => {
            lemma_chain_items_len(params.chains@);
            lemma_address_items_len(params.pool_address__in@);
            lemma_address_items_len(params.token__in@);
            lemma_address_items_len(params.owner__in@);
            lemma_address_items_len(params.base_pool__in@);
            lemma_address_items_len(params.coins__in@);
            lemma_address_items_len(params.base_coins__in@);
        },
        Operation::GetUniswapV2Pairs { params } => {
            lemma_chain_items_len(params.chains@);
            lemma_address_items_len(params.pair_address__in@);
            lemma_address_items_len(params.factory_address__in@);
            lemma_address_items_len(params.token0__in@);
            lemma_address_items_len(params.token1__in@);
            lemma_address_items_len(params.tokens__in@);
        },
        Operation::GetFuelLogs { params } => {
            lemma_chain_items_len(params.chains@);
            lemma_hash_items_len(params.id__in@);
            lemma_u64_items_len(params.ra__in@);
            lemma_u64_items_len(params.rb__in@);
        },
        Operation::GetFuelTxs { params } => {
            lemma_chain_items_len(params.chains@);
            lemma_txtype_items_len(params.transaction_type__in@);
            lemma_hash_items_len(params.metadata_contract_id__in@);
            lemma_hash_items_len(params.input_contract_contract_id__in@);
            lemma_hash_items_len(params.mint_asset_id__in@);
        },
        Operation::GetFuelUnspentUtxos { params } => {
            lemma_chain_items_len(params.chains@);
            lemma_hash_items_len(params.address__in@);
        },
        Operation::GetSparkOrder { params } => {
            lemma_chain_items_len(params.chains@);
            lemma_hash_items_len(params.order_id__in@);
            lemma_ordertype_items_len(params.order_type__in@);
            lemma_changetype_items_len(params.state_type__in@);
            lemma_hash_items_len(params.user__in@);
            lemma_hash_items_len(params.owner__in@);
            lemma_hash_items_len(params.asset__in@);
            lemma_hash_items_len(params.address__in@);
        },
    }
}

/// Appends the chain list bytes.
fn push_chains(out: &mut Vec<u8>, items: &Vec<ChainId>)
    requires
        items@.len() <= u16::MAX,
    ensures
        final(out)@ == old(out)@ + spec_chains_bytes(items@),
{
    let mut count_bytes = u16_to_le_bytes(items.len() as u16);
    out.append(&mut count_bytes);
    let n = items.len();
    let mut i: usize = 0;
    while i < n
        invariant
            0 <= i <= n == items@.len() <= u16::MAX,
            out@ == old(out)@ + spec_u16_to_le_bytes(items@.len() as u16) + spec_chain_items(
                items@.subrange(0, i as int),
            ),
        decreases n - i,
    {
        let code: u32 = items[i].num() as u32;
        let mut code_bytes = u32_to_le_bytes(code);
        out.append(&mut code_bytes);
        proof {
            let pre = items@.subrange(0, i as int);
            let post = items@.subrange(0, i + 1);
            assert(post.drop_last() =~= pre);
            assert(post.last() == items@[i as int]);
        }
        i = i + 1;
    }
    proof {
        assert(items@.subrange(0, n as int) =~= items@);
    }
}

/// Appends the address list bytes.
fn push_addresses(out: &mut Vec<u8>, items: &Vec<Address>)
    requires
        items@.len() <= u16::MAX,
    ensures
        final(out)@ == old(out)@ + spec_addresses_bytes(items@),
{
    let mut count_bytes = u16_to_le_bytes(items.len() as u16);
    out.append(&mut count_bytes);
    let n = items.len();
    let mut i: usize = 0;
    while i < n
        invariant
            0 <= i <= n == items@.len() <= u16::MAX,
            out@ == old(out)@ + spec_u16_to_le_bytes(items@.len() as u16) + spec_address_items(
                items@.subrange(0, i as int),
            ),
        decreases n - i,
    {
        let mut item = slice_to_vec(items[i].0.as_slice());
        out.append(&mut item);
        proof {
            let pre = items@.subrange(0, i as int);
            let post = items@.subrange(0, i + 1);
            assert(post.drop_last() =~= pre);
            assert(post.last() == items@[i as int]);
        }
        i = i + 1;
    }
    proof {
        assert(items@.subrange(0, n as int) =~= items@);
    }
}

/// Appends the hash list bytes.
fn push_hashes(out: &mut Vec<u8>, items: &Vec<Hash256>)
    requires
        items@.len() <= u16::MAX,
    ensures
        final(out)@ == old(out)@ + spec_hashes_bytes(items@),
{
    let mut count_bytes = u16_to_le_bytes(items.len() as u16);
    out.append(&mut count_bytes);
    let n = items.len();
    let mut i: usize = 0;
    while i < n
        invariant
            0 <= i <= n == items@.len() <= u16::MAX,
            out@ == old(out)@ + spec_u16_to_le_bytes(items@.len() as u16) + spec_hash_items(
                items@.subrange(0, i as int),
            ),
        decreases n - i,
    {
        let mut item = slice_to_vec(items[i].0.as_slice());
        out.append(&mut item);
        proof {
            let pre = items@.subrange(0, i as int);
            let post = items@.subrange(0, i + 1);
            assert(post.drop_last() =~= pre);
            assert(post.last() == items@[i as int]);
        }
        i = i + 1;
    }
    proof {
        assert(items@.subrange(0, n as int) =~= items@);
    }
}

/// Appends the register list bytes.
fn push_u64s(out: &mut Vec<u8>, items: &Vec<u64>)
    requires
        items@.len() <= u16::MAX,
    ensures
        final(out)@ == old(out)@ + spec_u64s_bytes(items@),
{
    let mut count_bytes = u16_to_le_bytes(items.len() as u16);
    out.append(&mut count_bytes);
    let n = items.len();
    let mut i: usize = 0;
    while i < n
        invariant
            0 <= i <= n == items@.len() <= u16::MAX,
            out@ == old(out)@ + spec_u16_to_le_bytes(items@.len() as u16) + spec_u64_items(
                items@.subrange(0, i as int),
            ),
        decreases n - i,
    {
        let mut item = u64_to_le_bytes(items[i]);
        out.append(&mut item);
        proof {
            let pre = items@.subrange(0, i as int);
            let post = items@.subrange(0, i + 1);
            assert(post.drop_last() =~= pre);
            assert(post.last() == items@[i as int]);
        }
        i = i + 1;
    }
    proof {
        assert(items@.subrange(0, n as int) =~= items@);
    }
}

/// Appends the transaction-type list bytes.
fn push_txtypes(out: &mut Vec<u8>, items: &Vec<TransactionType>)
    requires
        items@.len() <= u16::MAX,
    ensures
        final(out)@ == old(out)@ + spec_txtypes_bytes(items@),
{
    let mut count_bytes = u16_to_le_bytes(items.len() as u16);
    out.append(&mut count_bytes);
    let n = items.len();
    let mut i: usize = 0;
    while i < n
        invariant
            0 <= i <= n == items@.len() <= u16::MAX,
            out@ == old(out)@ + spec_u16_to_le_bytes(items@.len() as u16) + spec_txtype_items(
                items@.subrange(0, i as int),
            ),
        decreases n - i,
    {
        let code: u8 = match items[i] {
            TransactionType::Unknown => 0,
            TransactionType::Script => 1,
            TransactionType::Create => 2,
            TransactionType::Mint => 3,
            TransactionType::Upgrade => 4,
            TransactionType::Upload => 5,
        };
        out.push(code);
        proof {
            let pre = items@.subrange(0, i as int);
            let post = items@.subrange(0, i + 1);
            assert(post.drop_last() =~= pre);
            assert(post.last() == items@[i as int]);
        }
        i = i + 1;
    }
    proof {
        assert(items@.subrange(0, n as int) =~= items@);
    }
}

/// Appends the order-side list bytes.
fn push_ordertypes(out: &mut Vec<u8>, items: &Vec<OrderType>)
    requires
        items@.len() <= u16::MAX,
    ensures
        final(out)@ == old(out)@ + spec_ordertypes_bytes(items@),
{
    let mut count_bytes = u16_to_le_bytes(items.len() as u16);
    out.append(&mut count_bytes);
    let n = items.len();
    let mut i: usize = 0;
    while i < n
        invariant
            0 <= i <= n == items@.len() <= u16::MAX,
            out@ == old(out)@ + spec_u16_to_le_bytes(items@.len() as u16) + spec_ordertype_items(
                items@.subrange(0, i as int),
            ),
        decreases n - i,
    {
        let code: u8 = match items[i] {
            OrderType::Buy => 0,
            OrderType::Sell => 1,
        };
        out.push(code);
        proof {
            let pre = items@.subrange(0, i as int);
            let post = items@.subrange(0, i + 1);
            assert(post.drop_last() =~= pre);
            assert(post.last() == items@[i as int]);
        }
        i = i + 1;
    }
    proof {
        assert(items@.subrange(0, n as int) =~= items@);
    }
}

/// Appends the state-change list bytes.
fn push_changetypes(out: &mut Vec<u8>, items: &Vec<OrderChangeType>)
    requires
        items@.len() <= u16::MAX,
    ensures
        final(out)@ == old(out)@ + spec_changetypes_bytes(items@),
{
    let mut count_bytes = u16_to_le_bytes(items.len() as u16);
    out.append(&mut count_bytes);
    let n = items.len();
    let mut i: usize = 0;
    while i < n
        invariant
            0 <= i <= n == items@.len() <= u16::MAX,
            out@ == old(out)@ + spec_u16_to_le_bytes(items@.len() as u16) + spec_changetype_items(
                items@.subrange(0, i as int),
            ),
        decreases n - i,
    {
        let code: u8 = match items[i] {
            OrderChangeType::Open => 0,
            OrderChangeType::Cancel => 1,
            OrderChangeType::Match => 2,
        };
        out.push(code);
        proof {
            let pre = items@.subrange(0, i as int);
            let post = items@.subrange(0, i + 1);
            assert(post.drop_last() =~= pre);
            assert(post.last() == items@[i as int]);
        }
        i = i + 1;
    }
    proof {
        assert(items@.subrange(0, n as int) =~= items@);
    }
}

/// Appends the receipt-type list bytes.
fn push_receipts(out: &mut Vec<u8>, items: &Vec<ReceiptType>)
    requires
        items@.len() <= u16::MAX,
    ensures
        final(out)@ == old(out)@ + spec_receipts_bytes(items@),
{
    let mut count_bytes = u16_to_le_bytes(items.len() as u16);
    out.append(&mut count_bytes);
    let n = items.len();
    let mut i: usize = 0;
    while i < n
        invariant
            0 <= i <= n == items@.len() <= u16::MAX,
            out@ == old(out)@ + spec_u16_to_le_bytes(items@.len() as u16) + spec_receipt_items(
                items@.subrange(0, i as int),
            ),
        decreases n - i,
    {
        let code: u8 = match items[i] {
            ReceiptType::Call => 0,
            ReceiptType::Return => 1,
            ReceiptType::ReturnData => 2,
            ReceiptType::Panic => 3,
            ReceiptType::Revert => 4,
            ReceiptType::Log => 5,
            ReceiptType::LogData => 6,
            ReceiptType::Transfer => 7,
            ReceiptType::TransferOut => 8,
            ReceiptType::ScriptResult => 9,
            ReceiptType::MessageOut => 10,
            ReceiptType::Mint => 11,
            ReceiptType::Burn => 12,
        };
        out.push(code);
        proof {
            let pre = items@.subrange(0, i as int);
            let post = items@.subrange(0, i + 1);
            assert(post.drop_last() =~= pre);
            assert(post.last() == items@[i as int]);
        }
        i = i + 1;
    }
    proof {
        assert(items@.subrange(0, n as int) =~= items@);
    }
}

/// Appends the text list bytes.
fn push_strings(out: &mut Vec<u8>, items: &Vec<String>)
    requires
        items@.len() <= u16::MAX,
        strings_ok(items@),
    ensures
        final(out)@ == old(out)@ + spec_strings_bytes(items@),
{
    let mut count_bytes = u16_to_le_bytes(items.len() as u16);
    out.append(&mut count_bytes);
    let n = items.len();
    let mut i: usize = 0;
    while i < n
        invariant
            0 <= i <= n == items@.len() <= u16::MAX,
            strings_ok(items@),
            out@ == old(out)@ + spec_u16_to_le_bytes(items@.len() as u16) + spec_string_items(
                items@.subrange(0, i as int),
            ),
        decreases n - i,
    {
        let bytes = items[i].as_str().as_bytes();
        proof {
            assert(encode_utf8(items@[i as int]@).len() <= 255);
        }
        out.push(bytes.len() as u8);
        let mut item = slice_to_vec(bytes);
        out.append(&mut item);
        proof {
            let pre = items@.subrange(0, i as int);
            let post = items@.subrange(0, i + 1);
            assert(post.drop_last() =~= pre);
            assert(post.last() == items@[i as int]);
        }
        i = i + 1;
    }
    proof {
        assert(items@.subrange(0, n as int) =~= items@);
    }
}

/// Appends the bound bytes.
fn push_bound(out: &mut Vec<u8>, b: &Bound)
    ensures
        final(out)@ == old(out)@ + spec_bound_bytes(*b),
{
    match b {
        Bound::Exact(n) => {
            out.push(0);
            let mut bytes = u64_to_le_bytes(*n as u64);
            out.append(&mut bytes);
        },
        Bound::Latest => {
            out.push(1);
        },
        Bound::FromLatest(n) => {
            out.push(2);
            let mut bytes = u64_to_le_bytes(*n);
            out.append(&mut bytes);
        },
        Bound::Subscribe => {
            out.push(3);
        },
    }
    proof {
        assert(out@ =~= old(out)@ + spec_bound_bytes(*b));
    }
}

/// Appends an optional unsigned field.
fn push_opt_u64(out: &mut Vec<u8>, v: &Option<u64>)
    ensures
        final(out)@ == old(out)@ + spec_opt_u64_bytes(*v),
{
    match v {
        Option::None => {
            out.push(0);
        },
        Option::Some(n) => {
            out.push(1);
            let mut bytes = u64_to_le_bytes(*n);
            out.append(&mut bytes);
        },
    }
    proof {
        assert(out@ =~= old(out)@ + spec_opt_u64_bytes(*v));
    }
}

/// Appends an optional signed field.
fn push_opt_i64(out: &mut Vec<u8>, v: &Option<i64>)
    ensures
        final(out)@ == old(out)@ + spec_opt_i64_bytes(*v),
{
    match v {
        Option::None => {
            out.push(0);
        },
        Option::Some(n) => {
            out.push(1);
            let mut bytes = u64_to_le_bytes(*n as u64);
            out.append(&mut bytes);
        },
    }
    proof {
        assert(out@ =~= old(out)@ + spec_opt_i64_bytes(*v));
    }
}

/// Appends an optional amount field.
fn push_opt_u256(out: &mut Vec<u8>, v: &Option<Uint256>)
    ensures
        final(out)@ == old(out)@ + spec_opt_u256_bytes(*v),
{
    match v {
        Option::None => {
            out.push(0);
        },
        Option::Some(a) => {
            out.push(1);
            let mut bytes = slice_to_vec(a.0.as_slice());
            out.append(&mut bytes);
        },
    }
    proof {
        assert(out@ =~= old(out)@ + spec_opt_u256_bytes(*v));
    }
}

/// Appends an optional byte-sized field.
fn push_opt_u8(out: &mut Vec<u8>, v: &Option<u8>)
    ensures
        final(out)@ == old(out)@ + spec_opt_u8_bytes(*v),
{
    match v {
        Option::None => {
            out.push(0);
        },
        Option::Some(n) => {
            out.push(1);
            out.push(*n);
        },
    }
    proof {
        assert(out@ =~= old(out)@ + spec_opt_u8_bytes(*v));
    }
}

/// Encodes an operation into its payload bytes.
pub fn encode_operation(op: &Operation) -> (r: Vec<u8>)
    requires
        operation_valid(*op),
    ensures
        r@ == spec_encode_operation(*op),
{
    let mut out: Vec<u8> = Vec::new();
    match op {
        Operation::GetStatus => {
            out.push(0);
        },
        Operation::GetHeight => {
            out.push(1);
        },
        Operation::GetBlocks { params } => {
            out.push(2);
            push_chains(&mut out, &params.chains);
            push_bound(&mut out, &params.from_block);
            push_bound(&mut out, &params.to_block);
            push_opt_i64(&mut out, &params.from_timestamp);
            push_opt_i64(&mut out, &params.to_timestamp);
        },
        Operation::GetBtcBlocks { params } => {
            out.push(3);
            push_chains(&mut out, &params.chains);
            push_bound(&mut out, &params.from_block);
            push_bound(&mut out, &params.to_block);
        },
        Operation::GetBtcTxs { params } => {
            out.push(4);
            push_chains(&mut out, &params.chains);
            push_bound(&mut out, &params.from_block);
            push_bound(&mut out, &params.to_block);
        },
        Operation::GetFuelBlocks { params } => {
            out.push(5);
            push_chains(&mut out, &params.chains);
            push_bound(&mut out, &params.from_block);
            push_bound(&mut out, &params.to_block);
            push_opt_u64(&mut out, &params.da_block_number__gte);
            push_opt_u64(&mut out, &params.da_block_number__lte);
        },
        Operation::GetFuelReceipts { params } => {
            out.push(6);
            push_chains(&mut out, &params.chains);
            push_bound(&mut out, &params.from_block);
            push_bound(&mut out, &params.to_block);
            push_receipts(&mut out, &params.receipt_type__in);
        },
        Operation::GetLogs { params } => {
            out.push(7);
            push_chains(&mut out, &params.chains);
            push_bound(&mut out, &params.from_block);
            push_bound(&mut out, &params.to_block);
            push_addresses(&mut out, &params.address__in);
            push_hashes(&mut out, &params.topic0__in);
            push_hashes(&mut out, &params.topic1__in);
            push_hashes(&mut out, &params.topic2__in);
            push_hashes(&mut out, &params.topic3__in);
        },
        Operation::GetTxs { params } => {
            out.push(8);
            push_chains(&mut out, &params.chains);
            push_bound(&mut out, &params.from_block);
            push_bound(&mut out, &params.to_block);
            push_addresses(&mut out, &params.from__in);
            push_addresses(&mut out, &params.to__in);
            push_opt_u256(&mut out, &params.value__gte);
            push_opt_u256(&mut out, &params.value__lte);
            push_opt_u256(&mut out, &params.gas_price__gte);
            push_opt_u256(&mut out, &params.gas_price__lte);
            push_opt_u256(&mut out, &params.gas__gte);
            push_opt_u256(&mut out, &params.gas__lte);
            push_opt_u256(&mut out, &params.max_fee_per_gas__gte);
            push_opt_u256(&mut out, &params.max_fee_per_gas__lte);
            push_opt_u256(&mut out, &params.max_priority_fee_per_gas__gte);
            push_opt_u256(&mut out, &params.max_priority_fee_per_gas__lte);
        },
        Operation::GetTransfers { params } => {
            out.push(9);
            push_chains(&mut out, &params.chains);
            push_bound(&mut out, &params.from_block);
            push_bound(&mut out, &params.to_block);
            push_addresses(&mut out, &params.address__in);
            push_addresses(&mut out, &params.to__in);
            push_addresses(&mut out, &params.from__in);
            push_opt_u256(&mut out, &params.value__lte);
            push_opt_u256(&mut out, &params.value__gte);
        },
        Operation::GetErc20 { params } => {
            out.push(10);
            push_chains(&mut out, &params.chains);
            push_bound(&mut out, &params.from_block);
            push_bound(&mut out, &params.to_block);
            push_addresses(&mut out, &params.address__in);
            push_strings(&mut out, &params.symbol__in);
            push_strings(&mut out, &params.name__in);
            push_opt_u8(&mut out, &params.decimals__gte);
            push_opt_u8(&mut out, &params.decimals__lte);
        },
        Operation::GetCurveTokens { params } => {
            out.push(11);
            push_chains(&mut out, &params.chains);
            push_bound(&mut out, &params.from_block);
            push_bound(&mut out, &params.to_block);
            push_addresses(&mut out, &params.address__in);
            push_strings(&mut out, &params.symbol__in);
            push_strings(&mut out, &params.name__in);
            push_addresses(&mut out, &params.pool_address__in);
            push_opt_u8(&mut out, &params.decimals__gte);
            push_opt_u8(&mut out, &params.decimals__lte);
        },
        Operation::GetCurvePools { params } => {
            out.push(12);
            push_chains(&mut out, &params.chains);
            push_bound(&mut out, &params.from_block);
            push_bound(&mut out, &params.to_block);
            push_addresses(&mut out, &params.pool_address__in);
            push_addresses(&mut out, &params.token__in);
            push_addresses(&mut out, &params.owner__in);
            push_addresses(&mut out, &params.base_pool__in);
            push_addresses(&mut out, &params.coins__in);
            push_addresses(&mut out, &params.base_coins__in);
            push_opt_u256(&mut out, &params.fee__gte);
            push_opt_u256(&mut out, &params.fee__lte);
            push_opt_u256(&mut out, &params.admin_fee__gte);
            push_opt_u256(&mut out, &params.admin_fee__lte);
            push_opt_u256(&mut out, &params.initial_a__gte);
            push_opt_u256(&mut out, &params.initial_a__lte);
            push_opt_u256(&mut out, &params.future_a__gte);
            push_opt_u256(&mut out, &params.future_a__lte);
            push_opt_u256(&mut out, &params.initial_a_time__gte);
            push_opt_u256(&mut out, &params.initial_a_time__lte);
            push_opt_u256(&mut out, &params.future_a_time__gte);
            push_opt_u256(&mut out, &params.future_a_time__lte);
            push_opt_u8(&mut out, &params.n_coins__gte);
            push_opt_u8(&mut out, &params.n_coins__lte);
        },
        Operation::GetUniswapV2Pairs { params } => {
            out.push(13);
            push_chains(&mut out, &params.chains);
            push_bound(&mut out, &params.from_block);
            push_bound(&mut out, &params.to_block);
            push_addresses(&mut out, &params.pair_address__in);
            push_addresses(&mut out, &params.factory_address__in);
            push_addresses(&mut out, &params.token0__in);
            push_addresses(&mut out, &params.token1__in);
            push_addresses(&mut out, &params.tokens__in);
        },
        Operation::GetFuelLogs { params } => {
            out.push(14);
            push_chains(&mut out, &params.chains);
            push_bound(&mut out, &params.from_block);
            push_bound(&mut out, &params.to_block);
            push_hashes(&mut out, &params.id__in);
            push_u64s(&mut out, &params.ra__in);
            push_u64s(&mut out, &params.rb__in);
        },
        Operation::GetFuelTxs { params } => {
            out.push(15);
            push_chains(&mut out, &params.chains);
            push_bound(&mut out, &params.from_block);
            push_bound(&mut out, &params.to_block);
            push_txtypes(&mut out, &params.transaction_type__in);
            push_hashes(&mut out, &params.metadata_contract_id__in);
            push_hashes(&mut out, &params.input_contract_contract_id__in);
            push_hashes(&mut out, &params.mint_asset_id__in);
            push_opt_u64(&mut out, &params.mint_amount__lte);
            push_opt_u64(&mut out, &params.mint_amount__gte);
        },
        Operation::GetFuelUnspentUtxos { params } => {
            out.push(16);
            push_chains(&mut out, &params.chains);
            push_bound(&mut out, &params.from_block);
            push_bound(&mut out, &params.to_block);
            push_bound(&mut out, &params.unspent_at);
            push_hashes(&mut out, &params.address__in);
        },
        Operation::GetSparkOrder { params } => {
            out.push(17);
            push_chains(&mut out, &params.chains);
            push_bound(&mut out, &params.from_block);
            push_bound(&mut out, &params.to_block);
            push_hashes(&mut out, &params.order_id__in);
            push_ordertypes(&mut out, &params.order_type__in);
            push_changetypes(&mut out, &params.state_type__in);
            push_hashes(&mut out, &params.user__in);
            push_hashes(&mut out, &params.owner__in);
            push_hashes(&mut out, &params.asset__in);
            push_hashes(&mut out, &params.address__in);
        },
    }
    proof {
        assert(out@ =~= spec_encode_operation(*op));
    }
    out
}

} // verus!
