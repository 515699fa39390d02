//! Filter parameters of the streamed record queries.
//!
//! Each struct is a plain filter DTO. A chain list is kept in the order the
//! caller gave it; an empty list means "no chain filter".

use vstd::prelude::*;

verus! {

use crate::types::{ChainId, default_chains};
use crate::query::Bound;
use crate::fuel::{OrderChangeType, OrderType, ReceiptType, TransactionType};
use crate::eth::{Address, Hash256, Uint256};

/// Filter for Ethereum-family block queries.
#[derive(Clone, Debug)]
pub struct GetBlocksRequest {
    /// Chains to query.
    pub chains: Vec<ChainId>,
    /// Inclusive lower bound for the block number.
    pub from_block: Bound,
    /// Exclusive upper bound for the block number.
    pub to_block: Bound,
    /// Inclusive lower bound for the block timestamp.
    pub from_timestamp: Option<i64>,
    /// Exclusive upper bound for the block timestamp.
    pub to_timestamp: Option<i64>,
}

impl Default for GetBlocksRequest {
    fn default() -> (r: Self)
        ensures
            r.chains@ == seq![ChainId::ETH],
            r.from_block == Bound::Latest,
            r.to_block == Bound::Latest,
            r.from_timestamp is None,
            r.to_timestamp is None,
    {
        Self {
            chains: default_chains(),
            from_block: Bound::Latest,
            to_block: Bound::Latest,
            from_timestamp: None,
            to_timestamp: None,
        }
    }
}

/// Filter for Bitcoin block queries.
#[derive(Clone, Debug)]
pub struct GetBtcBlocksRequest {
    /// Chains to query.
    pub chains: Vec<ChainId>,
    /// Inclusive lower bound for the block number.
    pub from_block: Bound,
    /// Exclusive upper bound for the block number.
    pub to_block: Bound,
}

impl Default for GetBtcBlocksRequest {
    fn default() -> (r: Self)
        ensures
            r.chains@ == seq![ChainId::ETH],
            r.from_block == Bound::Latest,
            r.to_block == Bound::Latest,
    {
        Self { chains: default_chains(), from_block: Bound::Latest, to_block: Bound::Latest }
    }
}

/// Filter for Bitcoin transaction queries.
#[derive(Clone, Debug)]
pub struct GetBtcTxsRequest {
    /// Chains to query.
    pub chains: Vec<ChainId>,
    /// Inclusive lower bound for the block number.
    pub from_block: Bound,
    /// Exclusive upper bound for the block number.
    pub to_block: Bound,
}

impl Default for GetBtcTxsRequest {
    fn default() -> (r: Self)
        ensures
            r.chains@ == seq![ChainId::ETH],
            r.from_block == Bound::Latest,
            r.to_block == Bound::Latest,
    {
        Self { chains: default_chains(), from_block: Bound::Latest, to_block: Bound::Latest }
    }
}

/// Filter for Fuel block queries.
#[derive(Clone, Debug)]
pub struct GetFuelBlocksRequest {
    /// Chains to query.
    pub chains: Vec<ChainId>,
    /// Inclusive lower bound for the block number.
    pub from_block: Bound,
    /// Exclusive upper bound for the block number.
    pub to_block: Bound,
    /// Inclusive lower bound for the data-availability block number.
    pub da_block_number__gte: Option<u64>,
    /// Inclusive upper bound for the data-availability block number.
    pub da_block_number__lte: Option<u64>,
}

impl Default for GetFuelBlocksRequest {
    fn default() -> (r: Self)
        ensures
            r.chains@ == seq![ChainId::ETH],
            r.from_block == Bound::Latest,
            r.to_block == Bound::Latest,
            r.da_block_number__gte is None,
            r.da_block_number__lte is None,
    {
        Self {
            chains: default_chains(),
            from_block: Bound::Latest,
            to_block: Bound::Latest,
            da_block_number__gte: None,
            da_block_number__lte: None,
        }
    }
}

/// Filter for Fuel receipt queries.
#[derive(Clone, Debug)]
pub struct GetFuelReceiptsRequest {
    /// Chains to query.
    pub chains: Vec<ChainId>,
    /// Inclusive lower bound for the block number.
    pub from_block: Bound,
    /// Exclusive upper bound for the block number.
    pub to_block: Bound,
    /// Receipt types to keep; empty keeps all.
    pub receipt_type__in: Vec<ReceiptType>,
}

impl Default for GetFuelReceiptsRequest {
    fn default() -> (r: Self)
        ensures
            r.chains@ == seq![ChainId::ETH],
            r.from_block == Bound::Latest,
            r.to_block == Bound::Latest,
            r.receipt_type__in@ == Seq::<ReceiptType>::empty(),
    {
        Self {
            chains: default_chains(),
            from_block: Bound::Latest,
            to_block: Bound::Latest,
            receipt_type__in: Vec::new(),
        }
    }
}


/// Filter for Ethereum-family log queries.
#[derive(Clone, Debug)]
pub struct GetLogsRequest {
    /// Chains to query.
    pub chains: Vec<ChainId>,
    /// Inclusive lower bound for the block number.
    pub from_block: Bound,
    /// Exclusive upper bound for the block number.
    pub to_block: Bound,
    /// Emitting contracts to keep; empty keeps all.
    pub address__in: Vec<Address>,
    /// First topics to keep; empty keeps all.
    pub topic0__in: Vec<Hash256>,
    /// Second topics to keep; empty keeps all.
    pub topic1__in: Vec<Hash256>,
    /// Third topics to keep; empty keeps all.
    pub topic2__in: Vec<Hash256>,
    /// Fourth topics to keep; empty keeps all.
    pub topic3__in: Vec<Hash256>,
}

impl Default for GetLogsRequest {
    fn default() -> (r: Self)
        ensures
            r.chains@ == seq![ChainId::ETH],
            r.from_block == Bound::Latest,
            r.to_block == Bound::Latest,
            r.address__in@ == Seq::<Address>::empty(),
            r.topic0__in@ == Seq::<Hash256>::empty(),
            r.topic1__in@ == Seq::<Hash256>::empty(),
            r.topic2__in@ == Seq::<Hash256>::empty(),
            r.topic3__in@ == Seq::<Hash256>::empty(),
    {
        Self {
            chains: default_chains(),
            from_block: Bound::Latest,
            to_block: Bound::Latest,
            address__in: Vec::new(),
            topic0__in: Vec::new(),
            topic1__in: Vec::new(),
            topic2__in: Vec::new(),
            topic3__in: Vec::new(),
        }
    }
}


/// Filter for Ethereum-family transaction queries.
#[derive(Clone, Debug)]
pub struct GetTxsRequest {
    /// Chains to query.
    pub chains: Vec<ChainId>,
    /// Inclusive lower bound for the block number.
    pub from_block: Bound,
    /// Exclusive upper bound for the block number.
    pub to_block: Bound,
    /// Senders to keep; empty keeps all.
    pub from__in: Vec<Address>,
    /// Recipients to keep; empty keeps all.
    pub to__in: Vec<Address>,
    /// Inclusive lower bound for the transferred value.
    pub value__gte: Option<Uint256>,
    /// Inclusive upper bound for the transferred value.
    pub value__lte: Option<Uint256>,
    /// Inclusive lower bound for the gas price.
    pub gas_price__gte: Option<Uint256>,
    /// Inclusive upper bound for the gas price.
    pub gas_price__lte: Option<Uint256>,
    /// Inclusive lower bound for the gas limit.
    pub gas__gte: Option<Uint256>,
    /// Inclusive upper bound for the gas limit.
    pub gas__lte: Option<Uint256>,
    /// Inclusive lower bound for the fee cap.
    pub max_fee_per_gas__gte: Option<Uint256>,
    /// Inclusive upper bound for the fee cap.
    pub max_fee_per_gas__lte: Option<Uint256>,
    /// Inclusive lower bound for the priority fee.
    pub max_priority_fee_per_gas__gte: Option<Uint256>,
    /// Inclusive upper bound for the priority fee.
    pub max_priority_fee_per_gas__lte: Option<Uint256>,
}

impl Default for GetTxsRequest {
    fn default() -> (r: Self)
        ensures
            r.chains@ == seq![ChainId::ETH],
            r.from_block == Bound::Latest,
            r.to_block == Bound::Latest,
            r.from__in@ == Seq::<Address>::empty(),
            r.to__in@ == Seq::<Address>::empty(),
            r.value__gte is None,
            r.value__lte is None,
            r.gas_price__gte is None,
            r.gas_price__lte is None,
            r.gas__gte is None,
            r.gas__lte is None,
            r.max_fee_per_gas__gte is None,
            r.max_fee_per_gas__lte is None,
            r.max_priority_fee_per_gas__gte is None,
            r.max_priority_fee_per_gas__lte is None,
    {
        Self {
            chains: default_chains(),
            from_block: Bound::Latest,
            to_block: Bound::Latest,
            from__in: Vec::new(),
            to__in: Vec::new(),
            value__gte: None,
            value__lte: None,
            gas_price__gte: None,
            gas_price__lte: None,
            gas__gte: None,
            gas__lte: None,
            max_fee_per_gas__gte: None,
            max_fee_per_gas__lte: None,
            max_priority_fee_per_gas__gte: None,
            max_priority_fee_per_gas__lte: None,
        }
    }
}


/// Filter for Ethereum-family transfer queries.
#[derive(Clone, Debug)]
pub struct GetTransfersRequest {
    /// Chains to query.
    pub chains: Vec<ChainId>,
    /// Inclusive lower bound for the block number.
    pub from_block: Bound,
    /// Exclusive upper bound for the block number.
    pub to_block: Bound,
    /// Token contracts to keep; empty keeps all.
    pub address__in: Vec<Address>,
    /// Recipients to keep; empty keeps all.
    pub to__in: Vec<Address>,
    /// Senders to keep; empty keeps all.
    pub from__in: Vec<Address>,
    /// Inclusive upper bound for the transferred value.
    pub value__lte: Option<Uint256>,
    /// Inclusive lower bound for the transferred value.
    pub value__gte: Option<Uint256>,
}

impl Default for GetTransfersRequest {
    fn default() -> (r: Self)
        ensures
            r.chains@ == seq![ChainId::ETH],
            r.from_block == Bound::Latest,
            r.to_block == Bound::Latest,
            r.address__in@ == Seq::<Address>::empty(),
            r.to__in@ == Seq::<Address>::empty(),
            r.from__in@ == Seq::<Address>::empty(),
            r.value__lte is None,
            r.value__gte is None,
    {
        Self {
            chains: default_chains(),
            from_block: Bound::Latest,
            to_block: Bound::Latest,
            address__in: Vec::new(),
            to__in: Vec::new(),
            from__in: Vec::new(),
            value__lte: None,
            value__gte: None,
        }
    }
}


/// Filter for ERC-20 token queries.
#[derive(Clone, Debug)]
pub struct GetErc20Request {
    /// Chains to query.
    pub chains: Vec<ChainId>,
    /// Inclusive lower bound for the block number.
    pub from_block: Bound,
    /// Exclusive upper bound for the block number.
    pub to_block: Bound,
    /// Token contracts to keep; empty keeps all.
    pub address__in: Vec<Address>,
    /// Token symbols to keep; empty keeps all.
    pub symbol__in: Vec<String>,
    /// Token names to keep; empty keeps all.
    pub name__in: Vec<String>,
    /// Inclusive lower bound for the token decimals.
    pub decimals__gte: Option<u8>,
    /// Inclusive upper bound for the token decimals.
    pub decimals__lte: Option<u8>,
}

impl Default for GetErc20Request {
    fn default() -> (r: Self)
        ensures
            r.chains@ == seq![ChainId::ETH],
            r.from_block == Bound::Latest,
            r.to_block == Bound::Latest,
            r.address__in@ == Seq::<Address>::empty(),
            r.symbol__in@ == Seq::<String>::empty(),
            r.name__in@ == Seq::<String>::empty(),
            r.decimals__gte is None,
            r.decimals__lte is None,
    {
        Self {
            chains: default_chains(),
            from_block: Bound::Latest,
            to_block: Bound::Latest,
            address__in: Vec::new(),
            symbol__in: Vec::new(),
            name__in: Vec::new(),
            decimals__gte: None,
            decimals__lte: None,
        }
    }
}


/// Filter for Curve token queries.
#[derive(Clone, Debug)]
pub struct GetCrvTokenRequest {
    /// Chains to query.
    pub chains: Vec<ChainId>,
    /// Inclusive lower bound for the block number.
    pub from_block: Bound,
    /// Exclusive upper bound for the block number.
    pub to_block: Bound,
    /// Token contracts to keep; empty keeps all.
    pub address__in: Vec<Address>,
    /// Token symbols to keep; empty keeps all.
    pub symbol__in: Vec<String>,
    /// Token names to keep; empty keeps all.
    pub name__in: Vec<String>,
    /// Pools to keep; empty keeps all.
    pub pool_address__in: Vec<Address>,
    /// Inclusive lower bound for the token decimals.
    pub decimals__gte: Option<u8>,
    /// Inclusive upper bound for the token decimals.
    pub decimals__lte: Option<u8>,
}

impl Default for GetCrvTokenRequest {
    fn default() -> (r: Self)
        ensures
            r.chains@ == seq![ChainId::ETH],
            r.from_block == Bound::Latest,
            r.to_block == Bound::Latest,
            r.address__in@ == Seq::<Address>::empty(),
            r.symbol__in@ == Seq::<String>::empty(),
            r.name__in@ == Seq::<String>::empty(),
            r.pool_address__in@ == Seq::<Address>::empty(),
            r.decimals__gte is None,
            r.decimals__lte is None,
    {
        Self {
            chains: default_chains(),
            from_block: Bound::Latest,
            to_block: Bound::Latest,
            address__in: Vec::new(),
            symbol__in: Vec::new(),
            name__in: Vec::new(),
            pool_address__in: Vec::new(),
            decimals__gte: None,
            decimals__lte: None,
        }
    }
}


/// Filter for Curve pool queries.
#[derive(Clone, Debug)]
pub struct GetCrvPoolRequest {
    /// Chains to query.
    pub chains: Vec<ChainId>,
    /// Inclusive lower bound for the block number.
    pub from_block: Bound,
    /// Exclusive upper bound for the block number.
    pub to_block: Bound,
    /// Pools to keep; empty keeps all.
    pub pool_address__in: Vec<Address>,
    /// LP tokens to keep; empty keeps all.
    pub token__in: Vec<Address>,
    /// Owners to keep; empty keeps all.
    pub owner__in: Vec<Address>,
    /// Base pools to keep; empty keeps all.
    pub base_pool__in: Vec<Address>,
    /// Coins to keep; empty keeps all.
    pub coins__in: Vec<Address>,
    /// Base coins to keep; empty keeps all.
    pub base_coins__in: Vec<Address>,
    /// Inclusive lower bound for the fee.
    pub fee__gte: Option<Uint256>,
    /// Inclusive upper bound for the fee.
    pub fee__lte: Option<Uint256>,
    /// Inclusive lower bound for the admin fee.
    pub admin_fee__gte: Option<Uint256>,
    /// Inclusive upper bound for the admin fee.
    pub admin_fee__lte: Option<Uint256>,
    /// Inclusive lower bound for the initial amplification.
    pub initial_a__gte: Option<Uint256>,
    /// Inclusive upper bound for the initial amplification.
    pub initial_a__lte: Option<Uint256>,
    /// Inclusive lower bound for the future amplification.
    pub future_a__gte: Option<Uint256>,
    /// Inclusive upper bound for the future amplification.
    pub future_a__lte: Option<Uint256>,
    /// Inclusive lower bound for the initial amplification time.
    pub initial_a_time__gte: Option<Uint256>,
    /// Inclusive upper bound for the initial amplification time.
    pub initial_a_time__lte: Option<Uint256>,
    /// Inclusive lower bound for the future amplification time.
    pub future_a_time__gte: Option<Uint256>,
    /// Inclusive upper bound for the future amplification time.
    pub future_a_time__lte: Option<Uint256>,
    /// Inclusive lower bound for the coin count.
    pub n_coins__gte: Option<u8>,
    /// Inclusive upper bound for the coin count.
    pub n_coins__lte: Option<u8>,
}

impl Default for GetCrvPoolRequest {
    fn default() -> (r: Self)
        ensures
            r.chains@ == seq![ChainId::ETH],
            r.from_block == Bound::Latest,
            r.to_block == Bound::Latest,
            r.pool_address__in@ == Seq::<Address>::empty(),
            r.token__in@ == Seq::<Address>::empty(),
            r.owner__in@ == Seq::<Address>::empty(),
            r.base_pool__in@ == Seq::<Address>::empty(),
            r.coins__in@ == Seq::<Address>::empty(),
            r.base_coins__in@ == Seq::<Address>::empty(),
            r.fee__gte is None,
            r.fee__lte is None,
            r.admin_fee__gte is None,
            r.admin_fee__lte is None,
            r.initial_a__gte is None,
            r.initial_a__lte is None,
            r.future_a__gte is None,
            r.future_a__lte is None,
            r.initial_a_time__gte is None,
            r.initial_a_time__lte is None,
            r.future_a_time__gte is None,
            r.future_a_time__lte is None,
            r.n_coins__gte is None,
            r.n_coins__lte is None,
    {
        Self {
            chains: default_chains(),
            from_block: Bound::Latest,
            to_block: Bound::Latest,
            pool_address__in: Vec::new(),
            token__in: Vec::new(),
            owner__in: Vec::new(),
            base_pool__in: Vec::new(),
            coins__in: Vec::new(),
            base_coins__in: Vec::new(),
            fee__gte: None,
            fee__lte: None,
            admin_fee__gte: None,
            admin_fee__lte: None,
            initial_a__gte: None,
            initial_a__lte: None,
            future_a__gte: None,
            future_a__lte: None,
            initial_a_time__gte: None,
            initial_a_time__lte: None,
            future_a_time__gte: None,
            future_a_time__lte: None,
            n_coins__gte: None,
            n_coins__lte: None,
        }
    }
}


/// Filter for Uniswap v2 pair queries.
#[derive(Clone, Debug)]
pub struct GetPairsRequest {
    /// Chains to query.
    pub chains: Vec<ChainId>,
    /// Inclusive lower bound for the block number.
    pub from_block: Bound,
    /// Exclusive upper bound for the block number.
    pub to_block: Bound,
    /// Pairs to keep; empty keeps all.
    pub pair_address__in: Vec<Address>,
    /// Factories to keep; empty keeps all.
    pub factory_address__in: Vec<Address>,
    /// First tokens to keep; empty keeps all.
    pub token0__in: Vec<Address>,
    /// Second tokens to keep; empty keeps all.
    pub token1__in: Vec<Address>,
    /// Tokens on either side to keep; empty keeps all.
    pub tokens__in: Vec<Address>,
}

impl Default for GetPairsRequest {
    fn default() -> (r: Self)
        ensures
            r.chains@ == seq![ChainId::ETH],
            r.from_block == Bound::Latest,
            r.to_block == Bound::Latest,
            r.pair_address__in@ == Seq::<Address>::empty(),
            r.factory_address__in@ == Seq::<Address>::empty(),
            r.token0__in@ == Seq::<Address>::empty(),
            r.token1__in@ == Seq::<Address>::empty(),
            r.tokens__in@ == Seq::<Address>::empty(),
    {
        Self {
            chains: default_chains(),
            from_block: Bound::Latest,
            to_block: Bound::Latest,
            pair_address__in: Vec::new(),
            factory_address__in: Vec::new(),
            token0__in: Vec::new(),
            token1__in: Vec::new(),
            tokens__in: Vec::new(),
        }
    }
}


/// Filter for Fuel log queries.
#[derive(Clone, Debug)]
pub struct GetFuelLogsRequest {
    /// Chains to query.
    pub chains: Vec<ChainId>,
    /// Inclusive lower bound for the block number.
    pub from_block: Bound,
    /// Exclusive upper bound for the block number.
    pub to_block: Bound,
    /// Emitting contracts to keep; empty keeps all.
    pub id__in: Vec<Hash256>,
    /// First receipt registers to keep; empty keeps all.
    pub ra__in: Vec<u64>,
    /// Second receipt registers to keep; empty keeps all.
    pub rb__in: Vec<u64>,
}

impl Default for GetFuelLogsRequest {
    fn default() -> (r: Self)
        ensures
            r.chains@ == seq![ChainId::ETH],
            r.from_block == Bound::Latest,
            r.to_block == Bound::Latest,
            r.id__in@ == Seq::<Hash256>::empty(),
            r.ra__in@ == Seq::<u64>::empty(),
            r.rb__in@ == Seq::<u64>::empty(),
    {
        Self {
            chains: default_chains(),
            from_block: Bound::Latest,
            to_block: Bound::Latest,
            id__in: Vec::new(),
            ra__in: Vec::new(),
            rb__in: Vec::new(),
        }
    }
}


/// Filter for Fuel transaction queries.
#[derive(Clone, Debug)]
pub struct GetFuelTxsRequest {
    /// Chains to query.
    pub chains: Vec<ChainId>,
    /// Inclusive lower bound for the block number.
    pub from_block: Bound,
    /// Exclusive upper bound for the block number.
    pub to_block: Bound,
    /// Transaction types to keep; empty keeps all.
    pub transaction_type__in: Vec<TransactionType>,
    /// Metadata contracts to keep; empty keeps all.
    pub metadata_contract_id__in: Vec<Hash256>,
    /// Input contracts to keep; empty keeps all.
    pub input_contract_contract_id__in: Vec<Hash256>,
    /// Minted assets to keep; empty keeps all.
    pub mint_asset_id__in: Vec<Hash256>,
    /// Inclusive upper bound for the minted amount.
    pub mint_amount__lte: Option<u64>,
    /// Inclusive lower bound for the minted amount.
    pub mint_amount__gte: Option<u64>,
}

impl Default for GetFuelTxsRequest {
    fn default() -> (r: Self)
        ensures
            r.chains@ == seq![ChainId::ETH],
            r.from_block == Bound::Latest,
            r.to_block == Bound::Latest,
            r.transaction_type__in@ == Seq::<TransactionType>::empty(),
            r.metadata_contract_id__in@ == Seq::<Hash256>::empty(),
            r.input_contract_contract_id__in@ == Seq::<Hash256>::empty(),
            r.mint_asset_id__in@ == Seq::<Hash256>::empty(),
            r.mint_amount__lte is None,
            r.mint_amount__gte is None,
    {
        Self {
            chains: default_chains(),
            from_block: Bound::Latest,
            to_block: Bound::Latest,
            transaction_type__in: Vec::new(),
            metadata_contract_id__in: Vec::new(),
            input_contract_contract_id__in: Vec::new(),
            mint_asset_id__in: Vec::new(),
            mint_amount__lte: None,
            mint_amount__gte: None,
        }
    }
}


/// Filter for Spark order queries.
#[derive(Clone, Debug)]
pub struct GetSparkOrderRequest {
    /// Chains to query.
    pub chains: Vec<ChainId>,
    /// Inclusive lower bound for the block number.
    pub from_block: Bound,
    /// Exclusive upper bound for the block number.
    pub to_block: Bound,
    /// Orders to keep; empty keeps all.
    pub order_id__in: Vec<Hash256>,
    /// Order sides to keep; empty keeps all.
    pub order_type__in: Vec<OrderType>,
    /// State changes to keep; empty keeps all.
    pub state_type__in: Vec<OrderChangeType>,
    /// Users to keep; empty keeps all.
    pub user__in: Vec<Hash256>,
    /// Owners to keep; empty keeps all.
    pub owner__in: Vec<Hash256>,
    /// Assets to keep; empty keeps all.
    pub asset__in: Vec<Hash256>,
    /// Markets to keep; empty keeps all.
    pub address__in: Vec<Hash256>,
}

impl Default for GetSparkOrderRequest {
    fn default() -> (r: Self)
        ensures
            r.chains@ == seq![ChainId::ETH],
            r.from_block == Bound::Latest,
            r.to_block == Bound::Latest,
            r.order_id__in@ == Seq::<Hash256>::empty(),
            r.order_type__in@ == Seq::<OrderType>::empty(),
            r.state_type__in@ == Seq::<OrderChangeType>::empty(),
            r.user__in@ == Seq::<Hash256>::empty(),
            r.owner__in@ == Seq::<Hash256>::empty(),
            r.asset__in@ == Seq::<Hash256>::empty(),
            r.address__in@ == Seq::<Hash256>::empty(),
    {
        Self {
            chains: default_chains(),
            from_block: Bound::Latest,
            to_block: Bound::Latest,
            order_id__in: Vec::new(),
            order_type__in: Vec::new(),
            state_type__in: Vec::new(),
            user__in: Vec::new(),
            owner__in: Vec::new(),
            asset__in: Vec::new(),
            address__in: Vec::new(),
        }
    }
}


/// Filter for Fuel unspent-output queries.
#[derive(Clone, Debug)]
pub struct GetUtxoRequest {
    /// Chains to query.
    pub chains: Vec<ChainId>,
    /// Inclusive lower bound for the block number.
    pub from_block: Bound,
    /// Exclusive upper bound for the block number.
    pub to_block: Bound,
    /// The height at which an output must still be unspent.
    pub unspent_at: Bound,
    /// Owners to keep; empty keeps all.
    pub address__in: Vec<Hash256>,
}

impl Default for GetUtxoRequest {
    fn default() -> (r: Self)
        ensures
            r.chains@ == seq![ChainId::ETH],
            r.from_block == Bound::Latest,
            r.to_block == Bound::Latest,
            r.unspent_at == Bound::Latest,
            r.address__in@ == Seq::<Hash256>::empty(),
    {
        Self {
            chains: default_chains(),
            from_block: Bound::Latest,
            to_block: Bound::Latest,
            unspent_at: Bound::Latest,
            address__in: Vec::new(),
        }
    }
}

} // verus!
