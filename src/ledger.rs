//! Plain-value model of ledger outputs: references, addresses, asset balances.
use vstd::prelude::*;

use crate::bytes::same_array;

verus! {

/// Reference to a ledger output: the producing transaction and the output's position.
#[derive(Clone, Copy, Debug, PartialEq, Eq, Hash)]
pub struct OutputRef {
    pub tx_hash: [u8; 32],
    pub index: u64,
}

impl OutputRef {
    pub fn new(tx_hash: [u8; 32], index: u64) -> (r: OutputRef)
        ensures
            r.tx_hash == tx_hash,
            r.index == index,
    {
        OutputRef { tx_hash, index }
    }

    pub fn same_as(&self, other: &OutputRef) -> (r: bool)
        ensures
            r == (*self == *other),
    {
        self.index == other.index && same_array(&self.tx_hash, &other.tx_hash)
    }
}

/// A payment or staking credential: a key hash or a script hash.
#[derive(Clone, Copy, Debug, PartialEq, Eq, Hash)]
pub enum Credential {
    PubKey([u8; 28]),
    Script([u8; 28]),
}

impl Credential {
    pub fn same_as(&self, other: &Credential) -> (r: bool)
        ensures
            r == (*self == *other),
    {
        match (self, other) {
            (Credential::PubKey(a), Credential::PubKey(b)) => same_array(a, b),
            (Credential::Script(a), Credential::Script(b)) => same_array(a, b),
            _ => false,
        }
    }
}

/// A shelley-style address: network tag, payment part and optional staking part.
#[derive(Clone, Copy, Debug, PartialEq, Eq, Hash)]
pub struct Address {
    pub network: u8,
    pub payment: Credential,
    pub stake: Option<Credential>,
}

impl Address {
    pub fn same_as(&self, other: &Address) -> (r: bool)
        ensures
            r == (*self == *other),
    {
        if self.network != other.network || !self.payment.same_as(&other.payment) {
            return false;
        }
        match (&self.stake, &other.stake) {
            (Some(a), Some(b)) => a.same_as(b),
            (None, None) => true,
            _ => false,
        }
    }
}

/// An asset name of at most 32 bytes, held zero-padded with its length.
#[derive(Clone, Copy, Debug, PartialEq, Eq, Hash)]
pub struct AssetName {
    pub len: u8,
    pub bytes: [u8; 32],
}

/// Identifies an asset: the native coin or a token (minting policy, name).
#[derive(Clone, Copy, Debug, PartialEq, Eq, Hash)]
pub enum AssetClass {
    Native,
    Token([u8; 28], AssetName),
}

impl AssetClass {
    pub fn same_as(&self, other: &AssetClass) -> (r: bool)
        ensures
            r == (*self == *other),
    {
        match (self, other) {
            (AssetClass::Native, AssetClass::Native) => true,
            (AssetClass::Token(p1, n1), AssetClass::Token(p2, n2)) => {
                same_array(p1, p2) && n1.len == n2.len && same_array(&n1.bytes, &n2.bytes)
            },
            _ => false,
        }
    }
}

/// One asset of an output's value with its quantity.
#[derive(Clone, Copy, Debug, PartialEq, Eq, Hash)]
pub struct AssetEntry {
    pub asset: AssetClass,
    pub amount: u64,
}

/// Quantity of asset `a` in a list of entries.
pub open spec fn balance(s: Seq<AssetEntry>, a: AssetClass) -> nat
    decreases s.len(),
{
    if s.len() == 0 {
        0
    } else {
        balance(s.drop_last(), a) + if s.last().asset == a {
            s.last().amount as nat
        } else {
            0
        }
    }
}

/// No asset occurs twice.
pub open spec fn assets_unique(s: Seq<AssetEntry>) -> bool {
    forall|i: int, j: int| 0 <= i < j < s.len() ==> s[i].asset != s[j].asset
}

/// Position of the entry for asset `a`, or -1.
pub open spec fn asset_index(s: Seq<AssetEntry>, a: AssetClass) -> int {
    if exists|i: int| 0 <= i < s.len() && s[i].asset == a {
        choose|i: int| 0 <= i < s.len() && s[i].asset == a
    } else {
        -1
    }
}

/// The entries after `n` units of `a` are taken out.
pub open spec fn sub_asset_spec(s: Seq<AssetEntry>, a: AssetClass, n: u64) -> Seq<AssetEntry> {
    let i = asset_index(s, a);
    if i >= 0 {
        s.update(i, AssetEntry { asset: a, amount: (s[i].amount - n) as u64 })
    } else {
        s
    }
}

/// The entries after `n` units of `a` are put in.
pub open spec fn add_asset_spec(s: Seq<AssetEntry>, a: AssetClass, n: u64) -> Seq<AssetEntry> {
    let i = asset_index(s, a);
    if i >= 0 {
        s.update(i, AssetEntry { asset: a, amount: (s[i].amount + n) as u64 })
    } else if n == 0 {
        s
    } else {
        s.push(AssetEntry { asset: a, amount: n })
    }
}

pub proof fn lemma_balance_absent(s: Seq<AssetEntry>, a: AssetClass)
    requires
        forall|i: int| 0 <= i < s.len() ==> s[i].asset != a,
    ensures
        balance(s, a) == 0,
    decreases s.len(),
{
    if s.len() > 0 {
        lemma_balance_absent(s.drop_last(), a);
    }
}

pub proof fn lemma_balance_update(s: Seq<AssetEntry>, i: int, v: u64, b: AssetClass)
    requires
        0 <= i < s.len(),
    ensures
        balance(s.update(i, AssetEntry { asset: s[i].asset, amount: v }), b) + (if s[i].asset
            == b {
            s[i].amount as nat
        } else {
            0
        }) == balance(s, b) + (if s[i].asset == b {
            v as nat
        } else {
            0
        }),
    decreases s.len(),
{
    let t = s.update(i, AssetEntry { asset: s[i].asset, amount: v });
    if i < s.len() - 1 {
        lemma_balance_update(s.drop_last(), i, v, b);
        assert(t.drop_last() =~= s.drop_last().update(i, AssetEntry { asset: s[i].asset, amount: v }));
    } else {
        assert(t.drop_last() =~= s.drop_last());
    }
}

pub proof fn lemma_balance_unique(s: Seq<AssetEntry>, i: int)
    requires
        assets_unique(s),
        0 <= i < s.len(),
    ensures
        balance(s, s[i].asset) == s[i].amount,
    decreases s.len(),
{
    let a = s[i].asset;
    if i == s.len() - 1 {
        lemma_balance_absent(s.drop_last(), a);
    } else {
        lemma_balance_unique(s.drop_last(), i);
    }
}

pub proof fn lemma_balance_push(s: Seq<AssetEntry>, e: AssetEntry, b: AssetClass)
    ensures
        balance(s.push(e), b) == balance(s, b) + if e.asset == b {
            e.amount as nat
        } else {
            0
        },
{
    assert(s.push(e).drop_last() =~= s);
}

/// The balance of `b` after taking `n` units of `a` out.
pub proof fn lemma_sub_asset_balance(s: Seq<AssetEntry>, a: AssetClass, n: u64, b: AssetClass)
    requires
        assets_unique(s),
        n <= balance(s, a),
    ensures
        assets_unique(sub_asset_spec(s, a, n)),
        balance(sub_asset_spec(s, a, n), b) == if b == a {
            balance(s, b) - n
        } else {
            balance(s, b) as int
        },
{
    let i = asset_index(s, a);
    if i >= 0 {
        lemma_balance_unique(s, i);
        lemma_balance_update(s, i, (s[i].amount - n) as u64, b);
    } else {
        lemma_balance_absent(s, a);
    }
}

/// The balance of `b` after putting `n` units of `a` in.
pub proof fn lemma_add_asset_balance(s: Seq<AssetEntry>, a: AssetClass, n: u64, b: AssetClass)
    requires
        assets_unique(s),
        balance(s, a) + n <= u64::MAX,
    ensures
        assets_unique(add_asset_spec(s, a, n)),
        balance(add_asset_spec(s, a, n), b) == if b == a {
            balance(s, b) + n
        } else {
            balance(s, b) as int
        },
{
    let i = asset_index(s, a);
    if i >= 0 {
        lemma_balance_unique(s, i);
        lemma_balance_update(s, i, (s[i].amount + n) as u64, b);
    } else if n != 0 {
        lemma_balance_absent(s, a);
        lemma_balance_push(s, AssetEntry { asset: a, amount: n }, b);
    }
}

/// What an output holds, as plain values.
pub struct OutputView {
    pub address: Address,
    pub assets: Seq<AssetEntry>,
    pub datum: Option<Seq<u8>>,
    pub script_ref: Option<Seq<u8>>,
}

pub open spec fn bytes_view(b: Option<Vec<u8>>) -> Option<Seq<u8>> {
    match b {
        Some(v) => Some(v@),
        None => None,
    }
}

/// Contents of one ledger output: address, value, inline datum and reference script.
#[derive(Clone, Debug, PartialEq, Eq)]
pub struct LedgerOutput {
    pub address: Address,
    pub assets: Vec<AssetEntry>,
    pub datum: Option<Vec<u8>>,
    pub script_ref: Option<Vec<u8>>,
}

impl View for LedgerOutput {
    type V = OutputView;

    open spec fn view(&self) -> OutputView {
        OutputView {
            address: self.address,
            assets: self.assets@,
            datum: bytes_view(self.datum),
            script_ref: bytes_view(self.script_ref),
        }
    }
}

/// The script hash guarding an address's payment part, if it is a script.
pub open spec fn payment_script(a: Address) -> Option<[u8; 28]> {
    match a.payment {
        Credential::Script(h) => Some(h),
        Credential::PubKey(_) => None,
    }
}

impl OutputView {
    pub open spec fn wf(self) -> bool {
        assets_unique(self.assets)
    }

    pub open spec fn balance_of(self, a: AssetClass) -> nat {
        balance(self.assets, a)
    }

    pub open spec fn with_sub(self, a: AssetClass, n: u64) -> OutputView {
        OutputView { assets: sub_asset_spec(self.assets, a, n), ..self }
    }

    pub open spec fn with_add(self, a: AssetClass, n: u64) -> OutputView {
        OutputView { assets: add_asset_spec(self.assets, a, n), ..self }
    }

    pub open spec fn without_datum(self) -> OutputView {
        OutputView { datum: None, ..self }
    }

    pub open spec fn with_payment(self, c: Credential) -> OutputView {
        OutputView { address: Address { payment: c, ..self.address }, ..self }
    }
}

fn copy_bytes(b: &Option<Vec<u8>>) -> (r: Option<Vec<u8>>)
    ensures
        bytes_view(r) == bytes_view(*b),
{
    match b {
        Some(v) => {
            let mut out: Vec<u8> = Vec::new();
            let mut i: usize = 0;
            while i < v.len()
                invariant
                    i <= v@.len(),
                    out@ =~= v@.subrange(0, i as int),
                decreases v@.len() - i,
            {
                out.push(v[i]);
                i = i + 1;
            }
            Some(out)
        },
        None => None,
    }
}

impl LedgerOutput {
    /// A copy with the same contents.
    pub fn duplicate(&self) -> (r: LedgerOutput)
        ensures
            r@ == self@,
    {
        let mut assets: Vec<AssetEntry> = Vec::new();
        let mut i: usize = 0;
        while i < self.assets.len()
            invariant
                i <= self.assets@.len(),
                assets@ =~= self.assets@.subrange(0, i as int),
            decreases self.assets@.len() - i,
        {
            assets.push(self.assets[i]);
            i = i + 1;
        }
        assert(assets@ =~= self.assets@);
        LedgerOutput {
            address: self.address,
            assets,
            datum: copy_bytes(&self.datum),
            script_ref: copy_bytes(&self.script_ref),
        }
    }

    fn find_asset(&self, a: &AssetClass) -> (r: Option<usize>)
        requires
            self@.wf(),
        ensures
            match r {
                Some(i) => i as int == asset_index(self.assets@, *a),
                None => asset_index(self.assets@, *a) == -1,
            },
    {
        let mut i: usize = 0;
        while i < self.assets.len()
            invariant
                self@.wf(),
                i <= self.assets@.len(),
                forall|j: int| 0 <= j < i ==> self.assets@[j].asset != *a,
            decreases self.assets@.len() - i,
        {
            if self.assets[i].asset.same_as(a) {
                assert(self.assets@[i as int].asset == *a);
                let ghost k = asset_index(self.assets@, *a);
                assert(0 <= k < self.assets@.len() && self.assets@[k].asset == *a);
                assert(k == i) by {
                    if k > i {
                        assert(assets_unique(self.assets@));
                        assert(self.assets@[i as int].asset != self.assets@[k].asset);
                    }
                }
                return Some(i);
            }
            i = i + 1;
        }
        None
    }

    /// Takes `n` units of asset `a` out of the value.
    pub fn sub_asset(&mut self, a: AssetClass, n: u64)
        requires
            old(self)@.wf(),
            n <= old(self)@.balance_of(a),
        ensures
            final(self)@ == old(self)@.with_sub(a, n),
            final(self)@.wf(),
    {
        proof {
            lemma_sub_asset_balance(self.assets@, a, n, a);
        }
        match self.find_asset(&a) {
            Some(i) => {
                proof {
                    lemma_balance_unique(self.assets@, i as int);
                }
                let amount = self.assets[i].amount - n;
                self.assets.set(i, AssetEntry { asset: a, amount });
            },
            None => {},
        }
    }

    /// Puts `n` units of asset `a` into the value.
    pub fn add_asset(&mut self, a: AssetClass, n: u64)
        requires
            old(self)@.wf(),
            old(self)@.balance_of(a) + n <= u64::MAX,
        ensures
            final(self)@ == old(self)@.with_add(a, n),
            final(self)@.wf(),
    {
        proof {
            lemma_add_asset_balance(self.assets@, a, n, a);
        }
        match self.find_asset(&a) {
            Some(i) => {
                proof {
                    lemma_balance_unique(self.assets@, i as int);
                }
                let amount = self.assets[i].amount + n;
                self.assets.set(i, AssetEntry { asset: a, amount });
            },
            None => {
                if n != 0 {
                    self.assets.push(AssetEntry { asset: a, amount: n });
                }
            },
        }
    }

    /// Drops the inline datum.
    pub fn null_datum(&mut self)
        ensures
            final(self)@ == old(self)@.without_datum(),
    {
        self.datum = None;
    }

    /// Rewrites the payment part of the address.
    pub fn update_payment_cred(&mut self, cred: Credential)
        ensures
            final(self)@ == old(self)@.with_payment(cred),
    {
        self.address.payment = cred;
    }

    /// Hash of the script that guards this output, if any.
    pub fn script_hash(&self) -> (r: Option<[u8; 28]>)
        ensures
            r == payment_script(self@.address),
    {
        match self.address.payment {
            Credential::Script(h) => Some(h),
            Credential::PubKey(_) => None,
        }
    }

    /// Structural equality of contents.
    pub fn same_as(&self, other: &LedgerOutput) -> (r: bool)
        ensures
            r == (self@ == other@),
    {
        if !self.address.same_as(&other.address) || self.assets.len() != other.assets.len() {
            return false;
        }
        let mut i: usize = 0;
        while i < self.assets.len()
            invariant
                self.assets@.len() == other.assets@.len(),
                i <= self.assets@.len(),
                forall|j: int| 0 <= j < i ==> self.assets@[j] == other.assets@[j],
            decreases self.assets@.len() - i,
        {
            let x = self.assets[i];
            let y = other.assets[i];
            if x.amount != y.amount || !x.asset.same_as(&y.asset) {
                return false;
            }
            i = i + 1;
        }
        assert(self.assets@ =~= other.assets@);
        same_opt_bytes(&self.datum, &other.datum) && same_opt_bytes(
            &self.script_ref,
            &other.script_ref,
        )
    }
}

fn same_opt_bytes(a: &Option<Vec<u8>>, b: &Option<Vec<u8>>) -> (r: bool)
    ensures
        r == (bytes_view(*a) == bytes_view(*b)),
{
    match (a, b) {
        (Some(x), Some(y)) => crate::bytes::same_bytes(x.as_slice(), y.as_slice()),
        (None, None) => true,
        _ => false,
    }
}

/// An output together with the reference under which it sits on-chain.
#[derive(Clone, Debug, PartialEq, Eq)]
pub struct FinalizedTxOut(pub LedgerOutput, pub OutputRef);

impl FinalizedTxOut {
    pub fn new(out: LedgerOutput, out_ref: OutputRef) -> (r: FinalizedTxOut)
        ensures
            r.0@ == out@,
            r.1 == out_ref,
    {
        FinalizedTxOut(out, out_ref)
    }

    pub open spec fn view_pair(self) -> (OutputView, OutputRef) {
        (self.0@, self.1)
    }

    pub fn duplicate(&self) -> (r: FinalizedTxOut)
        ensures
            r.view_pair() == self.view_pair(),
    {
        FinalizedTxOut(self.0.duplicate(), self.1)
    }
}

/// An unspent output and its reference (used for collateral and reference scripts).
#[derive(Clone, Debug, PartialEq, Eq)]
pub struct UnspentOutput {
    pub input: OutputRef,
    pub output: LedgerOutput,
}

impl UnspentOutput {
    pub open spec fn view_pair(self) -> (OutputRef, OutputView) {
        (self.input, self.output@)
    }

    pub fn duplicate(&self) -> (r: UnspentOutput)
        ensures
            r.view_pair() == self.view_pair(),
    {
        UnspentOutput { input: self.input, output: self.output.duplicate() }
    }
}

/// Execution-unit budget of one script run.
#[derive(Clone, Copy, Debug, PartialEq, Eq, Hash)]
pub struct ExUnits {
    pub mem: u64,
    pub steps: u64,
}

} // verus!
