use vstd::prelude::*;

verus! {

/// A point in time as the harness carries it. Stores hand timestamps over
/// either as parsed instants (an epoch-seconds value) or as opaque text; the
/// harness keeps whichever form arrived and never reinterprets it, so the
/// value round-trips unchanged.
#[derive(Debug, PartialEq, Eq)]
pub enum Timestamp {
    Epoch(i64),
    Text(String),
}

impl Clone for Timestamp {
    fn clone(&self) -> (r: Self)
        ensures
            r == *self,
    {
        match self {
            Timestamp::Epoch(e) => Timestamp::Epoch(*e),
            Timestamp::Text(s) => Timestamp::Text(s.clone()),
        }
    }
}

#[derive(Debug, PartialEq, Eq)]
pub struct Block {
    pub block_number: i32,
    pub block_hash: String,
    pub parent_hash: String,
    pub block_timestamp: Timestamp,
    pub created_at: Timestamp,
    pub updated_at: Timestamp,
}

impl Clone for Block {
    fn clone(&self) -> (r: Self)
        ensures
            r == *self,
    {
        Block {
            block_number: self.block_number,
            block_hash: self.block_hash.clone(),
            parent_hash: self.parent_hash.clone(),
            block_timestamp: self.block_timestamp.clone(),
            created_at: self.created_at.clone(),
            updated_at: self.updated_at.clone(),
        }
    }
}

#[derive(Debug, PartialEq, Eq)]
pub struct Transaction {
    pub block: i32,
    pub index: i32,
    pub timestamp: Timestamp,
    pub hash: String,
    pub from: String,
    pub to: String,
    /// String-encoded big integer; stored and transmitted as text, never
    /// interpreted numerically.
    pub value: String,
}

impl Clone for Transaction {
    fn clone(&self) -> (r: Self)
        ensures
            r == *self,
    {
        Transaction {
            block: self.block,
            index: self.index,
            timestamp: self.timestamp.clone(),
            hash: self.hash.clone(),
            from: self.from.clone(),
            to: self.to.clone(),
            value: self.value.clone(),
        }
    }
}

#[derive(Debug, PartialEq, Eq)]
pub struct Transfer {
    pub tx_hash: String,
    pub block_number: i32,
    pub token: String,
    pub from: String,
    pub to: String,
    /// String-encoded big integer, as in [`Transaction::value`].
    pub amount: String,
}

impl Clone for Transfer {
    fn clone(&self) -> (r: Self)
        ensures
            r == *self,
    {
        Transfer {
            tx_hash: self.tx_hash.clone(),
            block_number: self.block_number,
            token: self.token.clone(),
            from: self.from.clone(),
            to: self.to.clone(),
            amount: self.amount.clone(),
        }
    }
}

#[derive(Debug, PartialEq, Eq)]
pub struct Pool {
    pub deployer: String,
    pub address: String,
    pub quote_token: String,
    pub token: String,
    pub init_block: i32,
    pub created_at: i64,
}

impl Clone for Pool {
    fn clone(&self) -> (r: Self)
        ensures
            r == *self,
    {
        Pool {
            deployer: self.deployer.clone(),
            address: self.address.clone(),
            quote_token: self.quote_token.clone(),
            token: self.token.clone(),
            init_block: self.init_block,
            created_at: self.created_at,
        }
    }
}

/// The four tables of the store, one per record kind.
#[derive(Debug, Clone, Copy, PartialEq, Eq, Structural)]
pub enum TableKind {
    Blocks,
    Transactions,
    Transfers,
    Pools,
}

/// One row of any of the four tables.
#[derive(Debug, PartialEq, Eq)]
pub enum Record {
    Block(Block),
    Transaction(Transaction),
    Transfer(Transfer),
    Pool(Pool),
}

impl Clone for Record {
    fn clone(&self) -> (r: Self)
        ensures
            r == *self,
    {
        match self {
            Record::Block(b) => Record::Block(b.clone()),
            Record::Transaction(t) => Record::Transaction(t.clone()),
            Record::Transfer(t) => Record::Transfer(t.clone()),
            Record::Pool(p) => Record::Pool(p.clone()),
        }
    }
}

impl Record {
    /// The table this row belongs to.
    pub open spec fn kind_spec(&self) -> TableKind {
        match self {
            Record::Block(_) => TableKind::Blocks,
            Record::Transaction(_) => TableKind::Transactions,
            Record::Transfer(_) => TableKind::Transfers,
            Record::Pool(_) => TableKind::Pools,
        }
    }

    pub fn kind(&self) -> (k: TableKind)
        ensures
            k == self.kind_spec(),
    {
        match self {
            Record::Block(_) => TableKind::Blocks,
            Record::Transaction(_) => TableKind::Transactions,
            Record::Transfer(_) => TableKind::Transfers,
            Record::Pool(_) => TableKind::Pools,
        }
    }
}

} // verus!
