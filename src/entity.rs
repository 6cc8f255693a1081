//! Tradable entities (orders, pools), their identifiers and provenance wrappers.
use vstd::prelude::*;

use rand::RngCore;

use crate::ledger::{AssetClass, AssetName, Credential, LedgerOutput, OutputRef, OutputView};

verus! {

/// An entity tracked on-chain: it has a stable identity and a current state identity.
pub trait OnChainEntity: Sized {
    /// The identity of the entity as a fixed-width key.
    spec fn entity_key(&self) -> [u8; 60];

    /// The identity of the entity's current state.
    spec fn state_ref(&self) -> OutputRef;

    fn get_self_ref(&self) -> (r: [u8; 60])
        ensures
            r == self.entity_key(),
    ;

    fn get_self_state_ref(&self) -> (r: OutputRef)
        ensures
            r == self.state_ref(),
    ;
}

/// Little-endian bytes of `n`, `len` of them.
pub open spec fn le_bytes(n: nat, len: nat) -> Seq<u8>
    decreases len,
{
    if len == 0 {
        seq![]
    } else {
        seq![(n % 256) as u8] + le_bytes(n / 256, (len - 1) as nat)
    }
}

/// Key of an order: transaction hash, then the output index in 8 little-endian bytes,
/// then zero padding.
pub open spec fn order_key(r: OutputRef) -> Seq<u8> {
    r.tx_hash@ + le_bytes(r.index as nat, 8) + Seq::new(20, |i: int| 0u8)
}

/// Key of a pool: the policy of its identifying token, then the padded token name.
pub open spec fn pool_key(policy: [u8; 28], name: AssetName) -> Seq<u8> {
    policy@ + name.bytes@
}

/// Identity of an order: the output that holds it.
#[derive(Clone, Copy, Debug, PartialEq, Eq, Hash)]
pub struct OnChainOrderId(pub OutputRef);

impl OnChainOrderId {
    pub fn new(tx: [u8; 32], index: u64) -> (r: OnChainOrderId)
        ensures
            r.0 == (OutputRef { tx_hash: tx, index }),
    {
        OnChainOrderId(OutputRef::new(tx, index))
    }

    pub fn from_ref(r: OutputRef) -> (o: OnChainOrderId)
        ensures
            o.0 == r,
    {
        OnChainOrderId(r)
    }

    pub fn into_key(self) -> (r: [u8; 60])
        ensures
            r@ == order_key(self.0),
    {
        let mut bf = [0u8; 60];
        let mut i: usize = 0;
        while i < 32
            invariant
                i <= 32,
                forall|j: int| 0 <= j < i ==> bf@[j] == self.0.tx_hash@[j],
                forall|j: int| 32 <= j < 60 ==> bf@[j] == 0u8,
            decreases 32 - i,
        {
            bf[i] = self.0.tx_hash[i];
            i = i + 1;
        }
        let mut v: u64 = self.0.index;
        let mut k: usize = 0;
        while k < 8
            invariant
                k <= 8,
                forall|j: int| 0 <= j < 32 ==> bf@[j] == self.0.tx_hash@[j],
                forall|j: int| 40 <= j < 60 ==> bf@[j] == 0u8,
                bf@.subrange(32, 32 + k as int) + le_bytes(v as nat, (8 - k) as nat) == le_bytes(
                    self.0.index as nat,
                    8,
                ),
            decreases 8 - k,
        {
            let ghost before = bf@;
            assert(le_bytes(v as nat, (8 - k) as nat) == seq![(v % 256) as u8] + le_bytes(
                (v / 256) as nat,
                (8 - k - 1) as nat,
            ));
            bf[32 + k] = (v % 256) as u8;
            assert(bf@.subrange(32, 32 + k + 1) =~= before.subrange(32, 32 + k as int) + seq![
                (v % 256) as u8,
            ]);
            v = v / 256;
            k = k + 1;
        }
        assert(le_bytes(v as nat, 0) =~= seq![]);
        assert(bf@ =~= order_key(self.0));
        bf
    }
}

/// Identity of a pool: the token that marks it.
#[derive(Clone, Copy, Debug, PartialEq, Eq, Hash)]
pub struct PoolId(pub [u8; 28], pub AssetName);

impl PoolId {
    pub fn into_key(self) -> (r: [u8; 60])
        ensures
            r@ == pool_key(self.0, self.1),
    {
        let mut bf = [0u8; 60];
        let mut i: usize = 0;
        while i < 28
            invariant
                i <= 28,
                forall|j: int| 0 <= j < i ==> bf@[j] == self.0@[j],
            decreases 28 - i,
        {
            bf[i] = self.0[i];
            i = i + 1;
        }
        while i < 60
            invariant
                28 <= i <= 60,
                forall|j: int| 0 <= j < 28 ==> bf@[j] == self.0@[j],
                forall|j: int| 28 <= j < i ==> bf@[j] == self.1.bytes@[j - 28],
            decreases 60 - i,
        {
            bf[i] = self.1.bytes[i - 28];
            i = i + 1;
        }
        assert(bf@ =~= pool_key(self.0, self.1));
        bf
    }

    /// A pool is identified by a token; the native coin identifies none.
    pub fn try_from_asset(ac: AssetClass) -> (r: Result<PoolId, ()>)
        ensures
            match ac {
                AssetClass::Token(p, n) => r == Ok::<PoolId, ()>(PoolId(p, n)),
                AssetClass::Native => r is Err,
            },
    {
        match ac {
            AssetClass::Token(p, n) => Ok(PoolId(p, n)),
            AssetClass::Native => Err(()),
        }
    }
}

/// Identity of one state of a pool: the output that holds it.
#[derive(Clone, Copy, Debug, PartialEq, Eq, Hash)]
pub struct PoolStateVer(pub OutputRef);

/// Protocol version of a pool; selects the reference script that validates it.
#[derive(Clone, Copy, Debug, PartialEq, Eq, Hash)]
pub enum PoolVer {
    V1,
    V2,
}

/// A spot limit order.
#[derive(Clone, Copy, Debug, PartialEq, Eq, Hash)]
pub struct SpotOrder {
    pub id: OnChainOrderId,
    pub input_asset: AssetClass,
    pub output_asset: AssetClass,
    /// Receives the proceeds once the order is fully consumed.
    pub redeemer_cred: Credential,
}

impl SpotOrder {
    pub fn redeemer_cred(&self) -> (r: Credential)
        ensures
            r == self.redeemer_cred,
    {
        self.redeemer_cred
    }
}

/// Every kind of order the engine executes.
#[derive(Clone, Copy, Debug, PartialEq, Eq, Hash)]
pub enum AnyOrder {
    Spot(SpotOrder),
}

/// A constant-function market-maker pool.
#[derive(Clone, Copy, Debug, PartialEq, Eq, Hash)]
pub struct CFMMPool {
    pub id: PoolId,
    pub asset_x: AssetClass,
    pub asset_y: AssetClass,
    pub reserves_x: u64,
    pub reserves_y: u64,
    pub ver: PoolVer,
}

/// Every kind of pool the engine executes.
#[derive(Clone, Copy, Debug, PartialEq, Eq, Hash)]
pub enum AnyPool {
    CFMM(CFMMPool),
}

/// An order or a pool.
#[derive(Clone, Copy, Debug, PartialEq, Eq, Hash)]
pub enum AnyEntity {
    Order(AnyOrder),
    Pool(AnyPool),
}

/// An entity together with the reference of the output that holds its state.
#[derive(Clone, Copy, Debug, PartialEq, Eq, Hash)]
pub struct Baked<T> {
    pub entity: T,
    pub ver: OutputRef,
}

impl<T> Baked<T> {
    pub fn new(entity: T, ver: OutputRef) -> (r: Baked<T>)
        ensures
            r.entity == entity,
            r.ver == ver,
    {
        Baked { entity, ver }
    }
}

impl OnChainEntity for Baked<AnyOrder> {
    open spec fn entity_key(&self) -> [u8; 60] {
        match self.entity {
            AnyOrder::Spot(o) => choose|k: [u8; 60]| k@ == order_key(o.id.0),
        }
    }

    open spec fn state_ref(&self) -> OutputRef {
        self.ver
    }

    fn get_self_ref(&self) -> (r: [u8; 60]) {
        match self.entity {
            AnyOrder::Spot(o) => {
                let r = o.id.into_key();
                proof {
                    let k = choose|k: [u8; 60]| k@ == order_key(o.id.0);
                    assert(r =~= k);
                }
                r
            },
        }
    }

    fn get_self_state_ref(&self) -> (r: OutputRef) {
        self.ver
    }
}

impl OnChainEntity for Baked<AnyPool> {
    open spec fn entity_key(&self) -> [u8; 60] {
        match self.entity {
            AnyPool::CFMM(p) => choose|k: [u8; 60]| k@ == pool_key(p.id.0, p.id.1),
        }
    }

    open spec fn state_ref(&self) -> OutputRef {
        self.ver
    }

    fn get_self_ref(&self) -> (r: [u8; 60]) {
        match self.entity {
            AnyPool::CFMM(p) => {
                let r = p.id.into_key();
                proof {
                    let k = choose|k: [u8; 60]| k@ == pool_key(p.id.0, p.id.1);
                    assert(r =~= k);
                }
                r
            },
        }
    }

    fn get_self_state_ref(&self) -> (r: OutputRef) {
        self.ver
    }
}

/// A persistent entity carried together with the output it was first seen in.
#[derive(Clone, Debug)]
pub struct OnChain<T> {
    pub value: T,
    pub source: LedgerOutput,
}

impl<T> OnChain<T> {
    /// Transforms the entity and keeps its source output.
    pub fn map<F, A>(self, f: F) -> (r: OnChain<A>)
        where
            F: FnOnce(T) -> A,
        requires
            f.requires((self.value,)),
        ensures
            f.ensures((self.value,), r.value),
            r.source@ == self.source@,
    {
        let OnChain { value, source } = self;
        OnChain { value: f(value), source }
    }
}

/// The fee an executor earns per unit of quote asset, as a ratio.
#[derive(Clone, Copy, Debug, PartialEq, Eq, Hash)]
pub struct ExecutorFeePerToken {
    pub numer: u64,
    pub denom: u64,
    pub asset: AssetClass,
}

impl ExecutorFeePerToken {
    pub fn new(numer: u64, denom: u64, asset: AssetClass) -> (r: ExecutorFeePerToken)
        requires
            denom > 0,
        ensures
            r.numer == numer,
            r.denom == denom,
            r.asset == asset,
    {
        ExecutorFeePerToken { numer, denom, asset }
    }

    /// `numer * quote_amount / denom`, rounded down, kept to its low 64 bits.
    pub fn get_fee(&self, quote_amount: u64) -> (r: u64)
        requires
            self.denom > 0,
        ensures
            r == (self.numer as int * quote_amount as int / self.denom as int) % 0x1_0000_0000_0000_0000,
    {
        let a: u128 = self.numer as u128;
        let b: u128 = quote_amount as u128;
        proof {
            assert(a * b <= u64::MAX as int * u64::MAX as int) by (nonlinear_arith)
                requires
                    a <= u64::MAX,
                    b <= u64::MAX,
            ;
        }
        let prod: u128 = a * b;
        let q: u128 = prod / (self.denom as u128);
        (q % 0x1_0000_0000_0000_0000u128) as u64
    }
}

/// Identity of an instruction source.
#[derive(Clone, Copy, Debug, PartialEq, Eq, Hash)]
pub struct SourceId(pub [u8; 32]);

/// The character of a hexadecimal digit, lower case.
pub open spec fn hex_digit(n: u8) -> char {
    seq!['0', '1', '2', '3', '4', '5', '6', '7', '8', '9', 'a', 'b', 'c', 'd', 'e', 'f'][n as int]
}

/// Lower-case hexadecimal text of a byte string, two digits per byte.
pub open spec fn hex_of(b: Seq<u8>) -> Seq<char>
    decreases b.len(),
{
    if b.len() == 0 {
        seq![]
    } else {
        hex_of(b.drop_last()) + seq![hex_digit(b.last() / 16), hex_digit(b.last() % 16)]
    }
}

/// Relies on hex::encode: two lower-case hexadecimal digits per byte, in order.
#[verifier::external_body]
fn hex_encode(b: &[u8; 32]) -> (r: String)
    ensures
        r@ == hex_of(b@),
{
    hex::encode(b)
}

/// Relies on rand's thread-local generator to fill a buffer; nothing is known of the bytes.
#[verifier::external_body]
fn random_bytes() -> (r: [u8; 32]) {
    let mut bf = [0u8; 32];
    rand::thread_rng().fill_bytes(&mut bf);
    bf
}

impl SourceId {
    pub fn random() -> SourceId {
        SourceId(random_bytes())
    }

    /// The identifier as hexadecimal text.
    pub fn to_hex(&self) -> (r: String)
        ensures
            r@ == hex_of(self.0@),
    {
        hex_encode(&self.0)
    }
}

} // verus!
