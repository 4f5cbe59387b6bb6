//! The registry as contracts see it: a value of plain mathematical data, and
//! for each operation what it answers and what it leaves behind.

use crate::identity::sentinel;
use crate::digest::sha256_digest;
use crate::metadata::{uri_metadata, MetadataPartView};
use crate::mint_window::{permit, window_of, ConstrainedError, MintWindow};
use crate::uri::valid_uri;
use crate::operators::without_owner;
use vstd::prelude::*;
use vstd::utf8::encode_utf8;

verus! {

/// Why an operation of the ledger was refused.
#[derive(Debug, Clone, Copy, PartialEq, Eq, Structural)]
pub enum Error {
    /// The caller may not do this.
    Unauthorized,
    /// No token has this id.
    InvalidTokenId,
    /// The target of a safe transfer is the sentinel identity.
    ZeroAddress,
    /// The identity given as the owner does not own the token.
    OwnershipMismatch,
}

/// A token as contracts see it.
pub struct NftView {
    pub owner: Seq<u8>,
    pub approved: Option<Seq<u8>>,
    pub id: u64,
    pub metadata: Seq<MetadataPartView>,
    pub content: Seq<u8>,
}

/// A logo as contracts see it.
pub struct LogoView {
    pub logo_type: Seq<char>,
    pub data: Seq<char>,
}

/// The registry as contracts see it.
pub struct StateView {
    /// The tokens; the token with id `i` is at place `i`.
    pub tokens: Seq<NftView>,
    /// The identities with administrative rights.
    pub custodians: Set<Seq<u8>>,
    /// The blanket grants, as pairs of owner and operator.
    pub operators: Set<(Seq<u8>, Seq<u8>)>,
    pub logo: Option<LogoView>,
    pub name: Seq<char>,
    pub symbol: Seq<char>,
    /// The transaction id that the next successful mutation returns.
    pub txid: nat,
    /// The identities that may receive a public mint.
    pub white_list: Seq<Seq<u8>>,
    pub begin_date: Seq<char>,
    pub end_date: Seq<char>,
    pub total_limit: Seq<char>,
    /// The mint window that the two dates were read as.
    pub window: MintWindow,
    /// The content-hash index; the digest of token `i` is at place `i`.
    pub hashes: Seq<Seq<u8>>,
}

/// The registry as it is set up: no tokens, no grants, the transaction id 0.
pub open spec fn initial(
    custodians: Set<Seq<u8>>,
    logo: Option<LogoView>,
    name: Seq<char>,
    symbol: Seq<char>,
    white_list: Seq<Seq<u8>>,
    begin_date: Seq<char>,
    end_date: Seq<char>,
    total_limit: Seq<char>,
    window: MintWindow,
) -> StateView {
    StateView {
        tokens: Seq::empty(),
        custodians,
        operators: Set::empty(),
        logo,
        name,
        symbol,
        txid: 0,
        white_list,
        begin_date,
        end_date,
        total_limit,
        window,
        hashes: Seq::empty(),
    }
}

/// The tokens that `user` owns, as a test on one token.
pub open spec fn owned_by(user: Seq<u8>) -> spec_fn(NftView) -> bool {
    |t: NftView| t.owner == user
}

impl StateView {
    /// What holds of every registry: ids are the places of the tokens, each
    /// token has its one digest, and the mint window is what the two dates
    /// are read as.
    pub open spec fn inv(self) -> bool {
        &&& self.tokens.len() <= u64::MAX
        &&& self.txid <= u128::MAX
        &&& self.hashes.len() == self.tokens.len()
        &&& self.dates_agree()
        &&& forall|i: int| 0 <= i < self.tokens.len() ==> (#[trigger] self.tokens[i]).id == i
    }

    /// A token with this id exists.
    pub open spec fn valid_id(self, token_id: u64) -> bool {
        token_id < self.tokens.len()
    }

    /// Whether `caller` may move or approve the token `token_id` on behalf
    /// of `subject`: as its owner, as its approved delegate, as an operator
    /// of `subject`, or as a custodian.
    pub open spec fn authorized(self, caller: Seq<u8>, subject: Seq<u8>, token_id: u64) -> bool {
        let token = self.tokens[token_id as int];
        ||| token.owner == caller
        ||| token.approved == Some(caller)
        ||| self.operators.contains((subject, caller))
        ||| self.custodians.contains(caller)
    }

    /// The same registry after one more transaction id was given out.
    pub open spec fn advanced(self) -> StateView {
        StateView { txid: self.txid + 1, ..self }
    }

    /// How many tokens `user` owns.
    pub open spec fn balance_of(self, user: Seq<u8>) -> nat {
        self.tokens.filter(owned_by(user)).len()
    }

    /// The tokens that `user` owns, by rising id.
    pub open spec fn tokens_of(self, user: Seq<u8>) -> Seq<NftView> {
        self.tokens.filter(owned_by(user))
    }

    /// The owner of a token.
    pub open spec fn owner_of(self, token_id: u64) -> Result<Seq<u8>, Error> {
        if self.valid_id(token_id) {
            Ok(self.tokens[token_id as int].owner)
        } else {
            Err(Error::InvalidTokenId)
        }
    }

    /// What a transfer answers: the id is looked at first, then whether
    /// the caller may act for `from`, then whether `from` owns the token.
    pub open spec fn transfer_outcome(
        self,
        caller: Seq<u8>,
        from: Seq<u8>,
        token_id: u64,
    ) -> Result<u128, Error> {
        if !self.valid_id(token_id) {
            Err(Error::InvalidTokenId)
        } else if !self.authorized(caller, from, token_id) {
            Err(Error::Unauthorized)
        } else if self.tokens[token_id as int].owner != from {
            Err(Error::OwnershipMismatch)
        } else {
            Ok(self.txid as u128)
        }
    }

    /// The registry after the token went to `to`: the new owner, no
    /// approved delegate.
    pub open spec fn transferred(self, to: Seq<u8>, token_id: u64) -> StateView {
        let token = self.tokens[token_id as int];
        StateView {
            tokens: self.tokens.update(
                token_id as int,
                NftView { owner: to, approved: None, ..token },
            ),
            ..self.advanced()
        }
    }

    /// What a safe transfer answers: a transfer to the sentinel identity is
    /// refused before anything else is looked at.
    pub open spec fn safe_transfer_outcome(
        self,
        caller: Seq<u8>,
        from: Seq<u8>,
        to: Seq<u8>,
        token_id: u64,
    ) -> Result<u128, Error> {
        if to == sentinel() {
            Err(Error::ZeroAddress)
        } else {
            self.transfer_outcome(caller, from, token_id)
        }
    }

    /// What an approval answers. The caller must be allowed to act for the
    /// identity that is to be approved.
    pub open spec fn approve_outcome(
        self,
        caller: Seq<u8>,
        user: Seq<u8>,
        token_id: u64,
    ) -> Result<u128, Error> {
        if !self.valid_id(token_id) {
            Err(Error::InvalidTokenId)
        } else if !self.authorized(caller, user, token_id) {
            Err(Error::Unauthorized)
        } else {
            Ok(self.txid as u128)
        }
    }

    /// The registry after `user` became the approved delegate of the token.
    pub open spec fn approved(self, user: Seq<u8>, token_id: u64) -> StateView {
        let token = self.tokens[token_id as int];
        StateView {
            tokens: self.tokens.update(token_id as int, NftView { approved: Some(user), ..token }),
            ..self.advanced()
        }
    }

    /// The grants after `caller` set or took back a blanket approval. Naming
    /// oneself changes nothing; naming the sentinel takes back all grants of
    /// the caller, and grants nothing.
    pub open spec fn grants_after(
        self,
        caller: Seq<u8>,
        operator: Seq<u8>,
        is_approved: bool,
    ) -> Set<(Seq<u8>, Seq<u8>)> {
        if operator == caller {
            self.operators
        } else if operator == sentinel() {
            if is_approved {
                self.operators
            } else {
                without_owner(self.operators, caller)
            }
        } else if is_approved {
            self.operators.insert((caller, operator))
        } else {
            self.operators.remove((caller, operator))
        }
    }

    /// The registry after `caller` set or took back a blanket approval.
    pub open spec fn approval_set(
        self,
        caller: Seq<u8>,
        operator: Seq<u8>,
        is_approved: bool,
    ) -> StateView {
        StateView { operators: self.grants_after(caller, operator, is_approved), ..self.advanced() }
    }

    /// The registry after a token was minted to `to`, with `digest` as its
    /// entry in the content-hash index.
    pub open spec fn minted(
        self,
        to: Seq<u8>,
        metadata: Seq<MetadataPartView>,
        content: Seq<u8>,
        digest: Seq<u8>,
    ) -> StateView {
        StateView {
            tokens: self.tokens.push(
                NftView {
                    owner: to,
                    approved: None,
                    id: self.tokens.len() as u64,
                    metadata,
                    content,
                },
            ),
            hashes: self.hashes.push(digest),
            ..self.advanced()
        }
    }

    /// What a burn answers: only the owner of the token may burn it.
    pub open spec fn burn_outcome(self, caller: Seq<u8>, token_id: u64) -> Result<u128, Error> {
        if !self.valid_id(token_id) {
            Err(Error::InvalidTokenId)
        } else if self.tokens[token_id as int].owner != caller {
            Err(Error::Unauthorized)
        } else {
            Ok(self.txid as u128)
        }
    }

    /// The registry after the token was burned: the sentinel owns it, and
    /// its approved delegate stays as it was.
    pub open spec fn burned(self, token_id: u64) -> StateView {
        let token = self.tokens[token_id as int];
        StateView {
            tokens: self.tokens.update(token_id as int, NftView { owner: sentinel(), ..token }),
            ..self.advanced()
        }
    }

    /// The mint window is what the two dates of the registry are read as.
    pub open spec fn dates_agree(self) -> bool {
        window_of(self.begin_date, self.end_date) == Some(self.window)
    }

    /// Whether a public mint of `uri` to `to` may go ahead at the instant
    /// `now`.
    pub open spec fn public_mint_permit(
        self,
        to: Seq<u8>,
        uri: Seq<char>,
        now: i64,
    ) -> Result<(), ConstrainedError> {
        permit(valid_uri(uri), self.window, now, self.white_list.contains(to))
    }

    /// What a change of the name, the symbol, the logo or the custodians
    /// answers: only a custodian may make one.
    pub open spec fn admin_outcome(self, caller: Seq<u8>) -> Result<(), Error> {
        if self.custodians.contains(caller) {
            Ok(())
        } else {
            Err(Error::Unauthorized)
        }
    }

    /// What the question whether `caller` may act on a token for `subject`
    /// answers.
    pub open spec fn authorized_outcome(
        self,
        caller: Seq<u8>,
        subject: Seq<u8>,
        token_id: u64,
    ) -> Result<bool, Error> {
        if self.valid_id(token_id) {
            Ok(self.authorized(caller, subject, token_id))
        } else {
            Err(Error::InvalidTokenId)
        }
    }

    /// The custodians after a custodian added or removed `user`.
    pub open spec fn custodians_after(self, user: Seq<u8>, custodian: bool) -> Set<Seq<u8>> {
        if custodian {
            self.custodians.insert(user)
        } else {
            self.custodians.remove(user)
        }
    }
}

/// The registry as it is kept across a restart: all of it but the mint
/// window, which is read again from the two dates.
pub struct StableView {
    pub tokens: Seq<NftView>,
    pub custodians: Set<Seq<u8>>,
    pub operators: Set<(Seq<u8>, Seq<u8>)>,
    pub logo: Option<LogoView>,
    pub name: Seq<char>,
    pub symbol: Seq<char>,
    pub txid: nat,
    pub white_list: Seq<Seq<u8>>,
    pub begin_date: Seq<char>,
    pub end_date: Seq<char>,
    pub total_limit: Seq<char>,
    pub hashes: Seq<Seq<u8>>,
}

impl StateView {
    /// What is kept of the registry across a restart.
    pub open spec fn stable(self) -> StableView {
        StableView {
            tokens: self.tokens,
            custodians: self.custodians,
            operators: self.operators,
            logo: self.logo,
            name: self.name,
            symbol: self.symbol,
            txid: self.txid,
            white_list: self.white_list,
            begin_date: self.begin_date,
            end_date: self.end_date,
            total_limit: self.total_limit,
            hashes: self.hashes,
        }
    }
}

impl StableView {
    /// A registry can be made of what was kept: ids are the places of the
    /// tokens, each token has its one digest, and the two dates can be read.
    pub open spec fn restorable(self) -> bool {
        &&& self.tokens.len() <= u64::MAX
        &&& self.hashes.len() == self.tokens.len()
        &&& forall|i: int| 0 <= i < self.tokens.len() ==> (#[trigger] self.tokens[i]).id == i
        &&& window_of(self.begin_date, self.end_date) is Some
    }

    /// The registry made of what was kept.
    pub open spec fn restored(self) -> StateView {
        StateView {
            tokens: self.tokens,
            custodians: self.custodians,
            operators: self.operators,
            logo: self.logo,
            name: self.name,
            symbol: self.symbol,
            txid: self.txid,
            white_list: self.white_list,
            begin_date: self.begin_date,
            end_date: self.end_date,
            total_limit: self.total_limit,
            window: window_of(self.begin_date, self.end_date).unwrap(),
            hashes: self.hashes,
        }
    }
}

/// One call of an operation that gives out a transaction id, with its
/// arguments as contracts see them.
pub enum Call {
    TransferFrom { from: Seq<u8>, to: Seq<u8>, token_id: u64 },
    SafeTransferFrom { from: Seq<u8>, to: Seq<u8>, token_id: u64 },
    Approve { user: Seq<u8>, token_id: u64 },
    SetApprovalForAll { operator: Seq<u8>, is_approved: bool },
    Mint { to: Seq<u8>, metadata: Seq<MetadataPartView>, content: Seq<u8> },
    SimpleMint {
        to: Seq<u8>,
        uri: Seq<char>,
        mime_type: Seq<char>,
        name: Seq<char>,
        origin: Seq<char>,
        now: i64,
    },
    Burn { token_id: u64 },
}

impl StateView {
    /// The transaction id that the call returns where it succeeds; `None`
    /// where it is refused.
    pub open spec fn txid_of(self, caller: Seq<u8>, call: Call) -> Option<u128> {
        match call {
            Call::TransferFrom { from, to, token_id } => match self.transfer_outcome(
                caller,
                from,
                token_id,
            ) {
                Ok(txid) => Some(txid),
                Err(_) => None,
            },
            Call::SafeTransferFrom { from, to, token_id } => match self.safe_transfer_outcome(
                caller,
                from,
                to,
                token_id,
            ) {
                Ok(txid) => Some(txid),
                Err(_) => None,
            },
            Call::Approve { user, token_id } => match self.approve_outcome(caller, user, token_id) {
                Ok(txid) => Some(txid),
                Err(_) => None,
            },
            Call::SetApprovalForAll { operator, is_approved } => Some(self.txid as u128),
            Call::Mint { to, metadata, content } => Some(self.txid as u128),
            Call::SimpleMint { to, uri, mime_type, name, origin, now } => {
                if self.public_mint_permit(to, uri, now) is Ok {
                    Some(self.txid as u128)
                } else {
                    None
                }
            },
            Call::Burn { token_id } => match self.burn_outcome(caller, token_id) {
                Ok(txid) => Some(txid),
                Err(_) => None,
            },
        }
    }

    /// The registry after the call: changed where the call succeeds, as it
    /// was where the call is refused.
    pub open spec fn after(self, caller: Seq<u8>, call: Call) -> StateView {
        if self.txid_of(caller, call) is None {
            self
        } else {
            match call {
                Call::TransferFrom { from, to, token_id } => self.transferred(to, token_id),
                Call::SafeTransferFrom { from, to, token_id } => self.transferred(to, token_id),
                Call::Approve { user, token_id } => self.approved(user, token_id),
                Call::SetApprovalForAll { operator, is_approved } => self.approval_set(
                    caller,
                    operator,
                    is_approved,
                ),
                Call::Mint { to, metadata, content } => self.minted(
                    to,
                    metadata,
                    content,
                    sha256_digest(content),
                ),
                Call::SimpleMint { to, uri, mime_type, name, origin, now } => self.minted(
                    to,
                    seq![
                        uri_metadata(uri, sha256_digest(encode_utf8(uri)), mime_type, name, origin),
                    ],
                    Seq::<u8>::empty(),
                    sha256_digest(Seq::<u8>::empty()),
                ),
                Call::Burn { token_id } => self.burned(token_id),
            }
        }
    }
}

/// The registry after a run of calls, each with its caller, in their order.
pub open spec fn run(state: StateView, calls: Seq<(Seq<u8>, Call)>) -> StateView
    decreases calls.len(),
{
    if calls.len() == 0 {
        state
    } else {
        run(state, calls.drop_last()).after(calls.last().0, calls.last().1)
    }
}

/// The transaction ids that the calls of a run return, those of the calls
/// that succeed, in their order.
pub open spec fn txids(state: StateView, calls: Seq<(Seq<u8>, Call)>) -> Seq<u128>
    decreases calls.len(),
{
    if calls.len() == 0 {
        Seq::<u128>::empty()
    } else {
        let earlier = txids(state, calls.drop_last());
        match run(state, calls.drop_last()).txid_of(calls.last().0, calls.last().1) {
            Some(txid) => earlier.push(txid),
            None => earlier,
        }
    }
}

} // verus!
