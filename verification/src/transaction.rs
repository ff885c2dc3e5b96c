//! Transactions: inputs, outputs and kernels.
use crate::bytes::same_bytes;
use crate::crypto::{BlindingFactor, Commitment, Signature};
use vstd::prelude::*;

verus! {

/// The largest relative height of a kernel, in blocks: a week.
pub const MAX_RELATIVE_HEIGHT: u16 = 10080;

/// What kind of kernel it is, with the data of that kind.
#[derive(Clone, Copy, Debug, PartialEq, Eq, Structural)]
pub enum KernelFeatures {
    /// A kernel with a fee alone.
    Plain { fee: u64 },
    /// The kernel of a block reward.
    Coinbase,
    /// A kernel that is not valid before a block height.
    HeightLocked { fee: u64, lock_height: u64 },
    /// A kernel that may not repeat within a number of blocks.
    NoRecentDuplicate { fee: u64, relative_height: u16 },
}

impl KernelFeatures {
    /// A relative height is at least one block and at most a week.
    pub open spec fn valid(self) -> bool {
        self matches KernelFeatures::NoRecentDuplicate { relative_height, .. } ==> 1
            <= relative_height <= MAX_RELATIVE_HEIGHT
    }

    /// The number of the kind.
    pub open spec fn kind(self) -> u8 {
        match self {
            KernelFeatures::Plain { .. } => 0,
            KernelFeatures::Coinbase => 1,
            KernelFeatures::HeightLocked { .. } => 2,
            KernelFeatures::NoRecentDuplicate { .. } => 3,
        }
    }

    /// The fee, or zero where the kind has none.
    pub open spec fn fee_field(self) -> u64 {
        match self {
            KernelFeatures::Plain { fee } => fee,
            KernelFeatures::Coinbase => 0,
            KernelFeatures::HeightLocked { fee, .. } => fee,
            KernelFeatures::NoRecentDuplicate { fee, .. } => fee,
        }
    }

    /// The lock height or relative height, or zero where the kind has none.
    pub open spec fn height_field(self) -> u64 {
        match self {
            KernelFeatures::HeightLocked { lock_height, .. } => lock_height,
            KernelFeatures::NoRecentDuplicate { relative_height, .. } => relative_height as u64,
            _ => 0,
        }
    }
}

/// What kind of output it is.
#[derive(Clone, Copy, Debug, PartialEq, Eq, Structural)]
pub enum OutputFeatures {
    /// An ordinary output.
    Plain,
    /// A block reward.
    Coinbase,
}

/// An output that a transaction spends.
#[derive(Clone, Copy, Debug, PartialEq, Eq)]
pub struct Input {
    pub features: OutputFeatures,
    pub commit: Commitment,
}

/// The part of an output that identifies it.
#[derive(Clone, Copy, Debug, PartialEq, Eq)]
pub struct OutputIdentifier {
    pub features: OutputFeatures,
    pub commit: Commitment,
}

/// A range proof: `plen` bytes of `proof` are in use.
#[derive(Clone, Copy, Debug, PartialEq, Eq)]
pub struct RangeProof {
    pub proof: [u8; 675],
    pub plen: usize,
}

/// An output that a transaction creates.
#[derive(Clone, Copy, Debug)]
pub struct Output {
    pub identifier: OutputIdentifier,
    pub proof: RangeProof,
}

/// A kernel: the proof that a transaction balances, and its fee.
#[derive(Clone, Copy, Debug, PartialEq, Eq)]
pub struct TxKernel {
    pub features: KernelFeatures,
    pub excess: Commitment,
    pub excess_sig: Signature,
}

/// The inputs of a transaction, with or without the features of what they spend.
#[derive(Debug)]
pub enum Inputs {
    CommitOnly(Vec<Commitment>),
    FeaturesAndCommit(Vec<Input>),
}

/// The inputs, outputs and kernels of a transaction.
#[derive(Debug)]
pub struct TransactionBody {
    pub inputs: Inputs,
    pub outputs: Vec<Output>,
    pub kernels: Vec<TxKernel>,
}

/// A transaction: its body, and the part of the excess that is split off.
#[derive(Debug)]
pub struct Transaction {
    pub offset: BlindingFactor,
    pub body: TransactionBody,
}

/// `Inputs` over sequences.
#[verifier::ext_equal]
pub enum InputsView {
    CommitOnly(Seq<Commitment>),
    FeaturesAndCommit(Seq<Input>),
}

/// `TransactionBody` over sequences.
#[verifier::ext_equal]
pub struct BodyView {
    pub inputs: InputsView,
    pub outputs: Seq<Output>,
    pub kernels: Seq<TxKernel>,
}

/// `Transaction` over sequences.
#[verifier::ext_equal]
pub struct TransactionView {
    pub offset: BlindingFactor,
    pub body: BodyView,
}

impl View for Inputs {
    type V = InputsView;

    open spec fn view(&self) -> InputsView {
        match *self {
            Inputs::CommitOnly(commits) => InputsView::CommitOnly(commits@),
            Inputs::FeaturesAndCommit(inputs) => InputsView::FeaturesAndCommit(inputs@),
        }
    }
}

impl View for TransactionBody {
    type V = BodyView;

    open spec fn view(&self) -> BodyView {
        BodyView { inputs: self.inputs@, outputs: self.outputs@, kernels: self.kernels@ }
    }
}

impl View for Transaction {
    type V = TransactionView;

    open spec fn view(&self) -> TransactionView {
        TransactionView { offset: self.offset, body: self.body@ }
    }
}

impl InputsView {
    /// The commitments that are spent, in order.
    pub open spec fn commits(self) -> Seq<Commitment> {
        match self {
            InputsView::CommitOnly(commits) => commits,
            InputsView::FeaturesAndCommit(inputs) => inputs.map_values(|i: Input| i.commit),
        }
    }

    /// The number of inputs.
    pub open spec fn count(self) -> nat {
        match self {
            InputsView::CommitOnly(commits) => commits.len(),
            InputsView::FeaturesAndCommit(inputs) => inputs.len(),
        }
    }
}

/// The fees of `kernels` added up.
pub open spec fn fee_sum(kernels: Seq<TxKernel>) -> nat
    decreases kernels.len(),
{
    if kernels.len() == 0 {
        0
    } else {
        fee_sum(kernels.drop_last()) + kernels.last().features.fee_field() as nat
    }
}

impl BodyView {
    /// The commitments that are created, in order.
    pub open spec fn output_commits(self) -> Seq<Commitment> {
        self.outputs.map_values(|o: Output| o.identifier.commit)
    }

    /// The fee of the transaction: that of all its kernels, or the largest `u64`
    /// where the sum is beyond it.
    pub open spec fn fee(self) -> u64 {
        crate::crypto::saturated(fee_sum(self.kernels) as int)
    }

    /// An output with the same features and commitment is among the outputs. The
    /// range proof is no part of what an output is.
    pub open spec fn has_output(self, output: Output) -> bool {
        exists|i: int|
            0 <= i < self.outputs.len() && (#[trigger] self.outputs[i]).identifier
                == output.identifier
    }
}

impl TransactionView {
    /// A transaction with nothing in it.
    pub open spec fn empty() -> TransactionView {
        TransactionView {
            offset: spec_zero_blind(),
            body: BodyView {
                inputs: InputsView::CommitOnly(seq![]),
                outputs: seq![],
                kernels: seq![],
            },
        }
    }

    /// The same transaction with `kernel` as its one kernel.
    pub open spec fn with_kernel(self, kernel: TxKernel) -> TransactionView {
        TransactionView { body: BodyView { kernels: seq![kernel], ..self.body }, ..self }
    }
}

/// The zero blinding factor.
pub open spec fn spec_zero_blind() -> BlindingFactor {
    vstd::array::spec_array_fill_for_copy_type::<u8, 32>(0)
}

/// The zero blinding factor.
pub fn zero_blind() -> (r: BlindingFactor)
    ensures
        r == spec_zero_blind(),
{
    [0u8; 32]
}

impl TxKernel {
    /// A kernel with these features that is not signed yet.
    pub open spec fn spec_with_features(features: KernelFeatures) -> TxKernel {
        TxKernel {
            features,
            excess: vstd::array::spec_array_fill_for_copy_type::<u8, 33>(0),
            excess_sig: vstd::array::spec_array_fill_for_copy_type::<u8, 64>(0),
        }
    }

    /// A kernel with these features that is not signed yet.
    pub fn with_features(features: KernelFeatures) -> (r: TxKernel)
        ensures
            r == TxKernel::spec_with_features(features),
    {
        TxKernel { features, excess: [0u8; 33], excess_sig: [0u8; 64] }
    }

    /// Whether two kernels are equal in all their parts.
    pub fn same(&self, other: &TxKernel) -> (r: bool)
        ensures
            r == (*self == *other),
    {
        self.features == other.features && same_bytes(&self.excess, &other.excess) && same_bytes(
            &self.excess_sig,
            &other.excess_sig,
        )
    }
}

impl Input {
    /// Whether two inputs are equal.
    pub fn same(&self, other: &Input) -> (r: bool)
        ensures
            r == (*self == *other),
    {
        self.features == other.features && same_bytes(&self.commit, &other.commit)
    }
}

impl OutputIdentifier {
    /// Whether two identifiers are equal.
    pub fn same(&self, other: &OutputIdentifier) -> (r: bool)
        ensures
            r == (*self == *other),
    {
        self.features == other.features && same_bytes(&self.commit, &other.commit)
    }
}

impl Inputs {
    /// The number of inputs.
    pub fn len(&self) -> (r: usize)
        ensures
            r == self@.count(),
    {
        match self {
            Inputs::CommitOnly(commits) => commits.len(),
            Inputs::FeaturesAndCommit(inputs) => inputs.len(),
        }
    }

    /// Whether both are of the same form and hold the same inputs in the same order.
    pub fn same(&self, other: &Inputs) -> (r: bool)
        ensures
            r == (self@ == other@),
    {
        match (self, other) {
            (Inputs::CommitOnly(a), Inputs::CommitOnly(b)) => same_commits(a, b),
            (Inputs::FeaturesAndCommit(a), Inputs::FeaturesAndCommit(b)) => same_inputs(a, b),
            _ => false,
        }
    }

    /// The commitments that are spent, in order.
    pub fn commits(&self) -> (r: Vec<Commitment>)
        ensures
            r@ == self@.commits(),
    {
        match self {
            Inputs::CommitOnly(commits) => copy_commits(commits),
            Inputs::FeaturesAndCommit(inputs) => {
                let mut r: Vec<Commitment> = Vec::new();
                let mut i: usize = 0;
                while i < inputs.len()
                    invariant
                        i <= inputs@.len(),
                        r@ == inputs@.take(i as int).map_values(|i: Input| i.commit),
                    decreases inputs@.len() - i,
                {
                    r.push(inputs[i].commit);
                    i = i + 1;
                    assert(r@ =~= inputs@.take(i as int).map_values(|i: Input| i.commit));
                }
                assert(inputs@.take(i as int) =~= inputs@);
                r
            },
        }
    }
}

/// Whether both hold the same commitments in the same order.
fn same_commits(a: &Vec<Commitment>, b: &Vec<Commitment>) -> (r: bool)
    ensures
        r == (a@ == b@),
{
    if a.len() != b.len() {
        return false;
    }
    let mut i: usize = 0;
    while i < a.len()
        invariant
            i <= a@.len(),
            a@.len() == b@.len(),
            forall|j: int| 0 <= j < i ==> a@[j] == b@[j],
        decreases a@.len() - i,
    {
        if !same_bytes(&a[i], &b[i]) {
            assert(a@[i as int] != b@[i as int]);
            return false;
        }
        i = i + 1;
    }
    assert(a@ =~= b@);
    true
}

/// Whether both hold the same inputs in the same order.
fn same_inputs(a: &Vec<Input>, b: &Vec<Input>) -> (r: bool)
    ensures
        r == (a@ == b@),
{
    if a.len() != b.len() {
        return false;
    }
    let mut i: usize = 0;
    while i < a.len()
        invariant
            i <= a@.len(),
            a@.len() == b@.len(),
            forall|j: int| 0 <= j < i ==> a@[j] == b@[j],
        decreases a@.len() - i,
    {
        if !a[i].same(&b[i]) {
            assert(a@[i as int] != b@[i as int]);
            return false;
        }
        i = i + 1;
    }
    assert(a@ =~= b@);
    true
}

/// A copy of `commits`.
fn copy_commits(commits: &Vec<Commitment>) -> (r: Vec<Commitment>)
    ensures
        r@ == commits@,
{
    let mut r: Vec<Commitment> = Vec::new();
    let mut i: usize = 0;
    while i < commits.len()
        invariant
            i <= commits@.len(),
            r@ == commits@.take(i as int),
        decreases commits@.len() - i,
    {
        r.push(commits[i]);
        i = i + 1;
        assert(r@ =~= commits@.take(i as int));
    }
    assert(commits@.take(i as int) =~= commits@);
    r
}

impl Clone for Inputs {
    fn clone(&self) -> (r: Inputs)
        ensures
            r@ == self@,
    {
        match self {
            Inputs::CommitOnly(commits) => Inputs::CommitOnly(copy_commits(commits)),
            Inputs::FeaturesAndCommit(inputs) => {
                let copy: Vec<Input> = inputs.clone();
                assert(copy@ =~= inputs@);
                Inputs::FeaturesAndCommit(copy)
            },
        }
    }
}

impl Clone for TransactionBody {
    fn clone(&self) -> (r: TransactionBody)
        ensures
            r@ == self@,
    {
        let outputs: Vec<Output> = self.outputs.clone();
        let kernels: Vec<TxKernel> = self.kernels.clone();
        assert(outputs@ =~= self.outputs@);
        assert(kernels@ =~= self.kernels@);
        TransactionBody { inputs: self.inputs.clone(), outputs, kernels }
    }
}

impl TransactionBody {
    /// Whether an output with the same features and commitment is among the outputs.
    pub fn has_output(&self, output: &Output) -> (r: bool)
        ensures
            r == self@.has_output(*output),
    {
        let mut i: usize = 0;
        while i < self.outputs.len()
            invariant
                i <= self.outputs@.len(),
                forall|j: int|
                    0 <= j < i ==> (#[trigger] self.outputs@[j]).identifier != output.identifier,
            decreases self.outputs@.len() - i,
        {
            if self.outputs[i].identifier.same(&output.identifier) {
                assert(self@.outputs[i as int].identifier == output.identifier);
                return true;
            }
            i = i + 1;
        }
        false
    }

    /// The commitments that are created, in order.
    pub fn output_commits(&self) -> (r: Vec<Commitment>)
        ensures
            r@ == self@.output_commits(),
    {
        let mut r: Vec<Commitment> = Vec::new();
        let mut i: usize = 0;
        while i < self.outputs.len()
            invariant
                i <= self.outputs@.len(),
                r@ == self.outputs@.take(i as int).map_values(|o: Output| o.identifier.commit),
            decreases self.outputs@.len() - i,
        {
            r.push(self.outputs[i].identifier.commit);
            i = i + 1;
            assert(r@ =~= self.outputs@.take(i as int).map_values(
                |o: Output| o.identifier.commit,
            ));
        }
        assert(self.outputs@.take(i as int) =~= self.outputs@);
        r
    }

    /// Whether both lists of kernels hold the same kernels in the same order.
    pub fn same_kernels(&self, other: &TransactionBody) -> (r: bool)
        ensures
            r == (self@.kernels == other@.kernels),
    {
        if self.kernels.len() != other.kernels.len() {
            return false;
        }
        let mut i: usize = 0;
        while i < self.kernels.len()
            invariant
                i <= self.kernels@.len(),
                self.kernels@.len() == other.kernels@.len(),
                forall|j: int| 0 <= j < i ==> self.kernels@[j] == other.kernels@[j],
            decreases self.kernels@.len() - i,
        {
            if !self.kernels[i].same(&other.kernels[i]) {
                assert(self.kernels@[i as int] != other.kernels@[i as int]);
                return false;
            }
            i = i + 1;
        }
        assert(self.kernels@ =~= other.kernels@);
        true
    }

    /// The fee of the transaction.
    pub fn fee(&self) -> (r: u64)
        ensures
            r == self@.fee(),
    {
        let mut sum: u64 = 0;
        let mut i: usize = 0;
        while i < self.kernels.len()
            invariant
                i <= self.kernels@.len(),
                sum == crate::crypto::saturated(fee_sum(self.kernels@.take(i as int)) as int),
            decreases self.kernels@.len() - i,
        {
            let fee: u64 = match self.kernels[i].features {
                KernelFeatures::Plain { fee } => fee,
                KernelFeatures::Coinbase => 0,
                KernelFeatures::HeightLocked { fee, .. } => fee,
                KernelFeatures::NoRecentDuplicate { fee, .. } => fee,
            };
            sum = sum.saturating_add(fee);
            i = i + 1;
            assert(self.kernels@.take(i as int).drop_last() =~= self.kernels@.take(i as int - 1));
        }
        assert(self.kernels@.take(i as int) =~= self.kernels@);
        sum
    }
}

impl Clone for Transaction {
    fn clone(&self) -> (r: Transaction)
        ensures
            r@ == self@,
    {
        Transaction { offset: self.offset, body: self.body.clone() }
    }
}

impl Transaction {
    /// A transaction with nothing in it.
    pub fn empty() -> (r: Transaction)
        ensures
            r@ == TransactionView::empty(),
    {
        Transaction {
            offset: zero_blind(),
            body: TransactionBody {
                inputs: Inputs::CommitOnly(Vec::new()),
                outputs: Vec::new(),
                kernels: Vec::new(),
            },
        }
    }

    /// The same transaction with `kernel` as its one kernel.
    pub fn replace_kernel(self, kernel: TxKernel) -> (r: Transaction)
        ensures
            r@ == self@.with_kernel(kernel),
    {
        let mut kernels: Vec<TxKernel> = Vec::new();
        kernels.push(kernel);
        Transaction {
            offset: self.offset,
            body: TransactionBody {
                inputs: self.body.inputs,
                outputs: self.body.outputs,
                kernels,
            },
        }
    }
}

} // verus!
