//! Application data as the light client reports it, and the block that is
//! assembled from it.

use vstd::prelude::*;

verus! {

/// What the light client reported for one height, as plain values.
pub struct AppData {
    /// The height that the data belongs to.
    pub block: u64,
    /// The raw application transactions, in the order reported.
    pub extrinsics: Seq<Seq<u8>>,
}

/// The raw application transactions of one block height.
#[derive(Clone, Debug, PartialEq, Eq)]
pub struct ExtrinsicsData {
    /// The height that the data belongs to.
    pub block: u64,
    /// The raw application transactions, in the order reported.
    pub extrinsics: Vec<Vec<u8>>,
}

impl View for ExtrinsicsData {
    type V = AppData;

    open spec fn view(&self) -> AppData {
        AppData {
            block: self.block,
            extrinsics: Seq::new(self.extrinsics@.len(), |i: int| self.extrinsics@[i]@),
        }
    }
}

impl ExtrinsicsData {
    /// The data of a height for which the light client holds none.
    pub fn empty(block: u64) -> (data: ExtrinsicsData)
        ensures
            data@ == (AppData { block, extrinsics: Seq::empty() }),
    {
        let data = ExtrinsicsData { block, extrinsics: Vec::new() };
        assert(data@.extrinsics =~= Seq::empty());
        data
    }
}

/// One application transaction of a block. It owns its bytes.
#[derive(Clone, Debug, PartialEq, Eq)]
pub struct AvailBlobTransaction {
    /// The bytes of the transaction.
    pub blob: Vec<u8>,
}

impl View for AvailBlobTransaction {
    type V = Seq<u8>;

    open spec fn view(&self) -> Seq<u8> {
        self.blob@
    }
}

impl AvailBlobTransaction {
    /// Decodes one raw extrinsic into a transaction that holds a copy of its
    /// bytes.
    pub fn new(extrinsic: &Vec<u8>) -> (transaction: AvailBlobTransaction)
        ensures
            transaction@ == extrinsic@,
    {
        let mut blob: Vec<u8> = Vec::with_capacity(extrinsic.len());
        let mut i: usize = 0;
        while i < extrinsic.len()
            invariant
                i <= extrinsic.len(),
                blob@ == extrinsic@.take(i as int),
            decreases extrinsic.len() - i,
        {
            blob.push(extrinsic[i]);
            i += 1;
        }
        AvailBlobTransaction { blob }
    }
}

/// A chain header together with its hash. The header is carried as the chain
/// client gave it; nothing here looks inside.
#[derive(Clone, Debug, PartialEq, Eq)]
pub struct AvailHeader<H> {
    /// The header in the chain's own form.
    pub header: H,
    /// The hash of the header, which names the block.
    pub hash: [u8; 32],
}

impl<H> AvailHeader<H> {
    /// Pairs a header with its hash.
    pub fn new(header: H, hash: [u8; 32]) -> (paired: AvailHeader<H>)
        ensures
            paired.header == header,
            paired.hash == hash,
    {
        AvailHeader { header, hash }
    }
}

/// A block as plain values.
pub struct BlockView<H> {
    /// The header in the chain's own form.
    pub header: H,
    /// The hash of the header.
    pub hash: [u8; 32],
    /// The bytes of each transaction, in block order.
    pub transactions: Seq<Seq<u8>>,
}

/// A block of the chain as the rollup sees it: its header and the application
/// transactions that the light client reported for it.
#[derive(Clone, Debug, PartialEq, Eq)]
pub struct AvailBlock<H> {
    /// The header and its hash.
    pub header: AvailHeader<H>,
    /// The application transactions, in the order reported.
    pub transactions: Vec<AvailBlobTransaction>,
}

impl<H> View for AvailBlock<H> {
    type V = BlockView<H>;

    open spec fn view(&self) -> BlockView<H> {
        BlockView {
            header: self.header.header,
            hash: self.header.hash,
            transactions: Seq::new(self.transactions@.len(), |i: int| self.transactions@[i]@),
        }
    }
}

/// The block that a header, its hash and the reported application data make:
/// one transaction per raw extrinsic, in the same order.
pub open spec fn assembled<H>(header: H, hash: [u8; 32], appdata: AppData) -> BlockView<H> {
    BlockView { header, hash, transactions: appdata.extrinsics }
}

/// Decodes every raw extrinsic, keeping the order.
pub fn decode_transactions(appdata: &ExtrinsicsData) -> (transactions: Vec<AvailBlobTransaction>)
    ensures
        transactions@.len() == appdata@.extrinsics.len(),
        forall|i: int|
            0 <= i < transactions@.len() ==> #[trigger] transactions@[i]@
                == appdata@.extrinsics[i],
{
    let mut transactions: Vec<AvailBlobTransaction> = Vec::with_capacity(appdata.extrinsics.len());
    let mut i: usize = 0;
    while i < appdata.extrinsics.len()
        invariant
            i <= appdata.extrinsics.len(),
            transactions@.len() == i,
            forall|j: int|
                0 <= j < i ==> #[trigger] transactions@[j]@ == appdata.extrinsics@[j]@,
        decreases appdata.extrinsics.len() - i,
    {
        transactions.push(AvailBlobTransaction::new(&appdata.extrinsics[i]));
        i += 1;
    }
    transactions
}

impl<H> AvailBlock<H> {
    /// Assembles the block view: the header with its hash, and the decoded
    /// transactions in the order of the reported extrinsics.
    pub fn assemble(header: H, hash: [u8; 32], appdata: &ExtrinsicsData) -> (block: AvailBlock<H>)
        ensures
            block@ == assembled(header, hash, appdata@),
    {
        let transactions = decode_transactions(appdata);
        let block = AvailBlock { header: AvailHeader::new(header, hash), transactions };
        assert(block@.transactions =~= appdata@.extrinsics);
        block
    }
}

} // verus!
