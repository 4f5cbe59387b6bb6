//! The token ledger: the registry's state and the operations on it.

use crate::digest::{sha256, sha256_digest};
use crate::hash_index::{digests_view, ContentHashIndex};
use crate::identity::{identities_view, members, sentinel, Identity, IdentitySet};
use crate::metadata::{parts_view, parts_wf, rendered_part, uri_metadata, MetadataPart};
use crate::mint_window::{decide, read_window, window_of, ConstrainedError, MintWindow};
use crate::model::{initial, owned_by, Error, LogoView, NftView, StableView, StateView};
use crate::operators::{pairs, Grant, Operators};
use crate::uri::is_valid_uri;
use vstd::prelude::*;
use vstd::string::*;
use vstd::utf8::encode_utf8;

verus! {

/// A logo: a media type and the image data as text.
#[derive(Debug, PartialEq, Eq)]
pub struct LogoResult {
    pub logo_type: String,
    pub data: String,
}

impl View for LogoResult {
    type V = LogoView;

    open spec fn view(&self) -> LogoView {
        LogoView { logo_type: self.logo_type@, data: self.data@ }
    }
}

/// The logo as contracts see it, where there is one.
pub open spec fn logo_view(logo: Option<LogoResult>) -> Option<LogoView> {
    match logo {
        Some(l) => Some(l@),
        None => None,
    }
}

/// A token.
#[derive(Debug)]
pub struct Nft {
    owner: Identity,
    approved: Option<Identity>,
    id: u64,
    metadata: Vec<MetadataPart>,
    content: Vec<u8>,
}

impl View for Nft {
    type V = NftView;

    closed spec fn view(&self) -> NftView {
        NftView {
            owner: self.owner@,
            approved: match self.approved {
                Some(a) => Some(a@),
                None => None,
            },
            id: self.id,
            metadata: parts_view(self.metadata@),
            content: self.content@,
        }
    }
}

/// A list of tokens as contracts see it.
pub open spec fn tokens_view(nfts: Seq<Nft>) -> Seq<NftView> {
    nfts.map_values(|n: Nft| n@)
}

/// Every token of the list is well formed.
pub open spec fn tokens_wf(nfts: Seq<Nft>) -> bool {
    forall|i: int| 0 <= i < nfts.len() ==> (#[trigger] nfts[i]).wf()
}

impl Nft {
    /// The token with the given owner, delegate, id, metadata and content.
    pub fn new(
        owner: Identity,
        approved: Option<Identity>,
        id: u64,
        metadata: Vec<MetadataPart>,
        content: Vec<u8>,
    ) -> (r: Nft)
        requires
            parts_wf(metadata@),
        ensures
            r.wf(),
            r@ == (NftView {
                owner: owner@,
                approved: match approved {
                    Some(a) => Some(a@),
                    None => None,
                },
                id,
                metadata: parts_view(metadata@),
                content: content@,
            }),
    {
        Nft { owner, approved, id, metadata, content }
    }

    /// Every part of the token's metadata is well formed.
    pub closed spec fn wf(&self) -> bool {
        parts_wf(self.metadata@)
    }

    /// The owner of the token.
    pub fn owner(&self) -> (r: &Identity)
        ensures
            r@ == self@.owner,
    {
        &self.owner
    }

    /// The approved delegate of the token, if it has one.
    pub fn approved(&self) -> (r: Option<&Identity>)
        ensures
            match r {
                Some(a) => self@.approved == Some(a@),
                None => self@.approved is None,
            },
    {
        self.approved.as_ref()
    }

    /// The id of the token.
    pub fn id(&self) -> (r: u64)
        ensures
            r == self@.id,
    {
        self.id
    }

    /// The metadata of the token.
    pub fn metadata(&self) -> (r: &Vec<MetadataPart>)
        ensures
            parts_view(r@) == self@.metadata,
            self.wf() ==> parts_wf(r@),
    {
        &self.metadata
    }

    /// The content of the token.
    pub fn content(&self) -> (r: &Vec<u8>)
        ensures
            r@ == self@.content,
    {
        &self.content
    }
}

/// A part of the served interface.
#[derive(Debug, Clone, Copy, PartialEq, Eq, Structural)]
pub enum InterfaceId {
    Approval,
    TransactionHistory,
    Mint,
    Burn,
    TransferNotification,
}

/// What a mint answers: the id of the new token and the transaction id.
#[derive(Debug, Clone, Copy, PartialEq, Eq, Structural)]
pub struct MintResult {
    pub token_id: u64,
    pub id: u128,
}

/// The metadata of one token of a user, with the token's id.
#[derive(Debug)]
pub struct ExtendedMetadataResult<'a> {
    pub metadata_desc: &'a Vec<MetadataPart>,
    pub token_id: u64,
}

/// What is to be told to the new owner of a token after a transfer with
/// notification. The registry only says what to send: sending is the
/// caller's part, and what becomes of it does not change the transfer.
#[derive(Debug, PartialEq, Eq)]
pub struct Notification {
    /// The identity to call: the new owner.
    pub recipient: Identity,
    /// The identity that asked for the transfer.
    pub caller: Identity,
    /// The owner that the token came from.
    pub from: Identity,
    pub token_id: u64,
    pub data: Vec<u8>,
}

/// The name of the method that a notification calls on its recipient.
pub const NOTIFY_METHOD: &'static str = "onDIP721Received";

/// The interfaces that the registry serves.
pub fn supported_interfaces() -> (r: Vec<InterfaceId>)
    ensures
        r@ == seq![
            InterfaceId::TransferNotification,
            InterfaceId::Approval,
            InterfaceId::Burn,
            InterfaceId::Mint,
        ],
{
    let mut r: Vec<InterfaceId> = Vec::new();
    r.push(InterfaceId::TransferNotification);
    r.push(InterfaceId::Approval);
    r.push(InterfaceId::Burn);
    r.push(InterfaceId::Mint);
    proof {
        assert(r@ =~= seq![
            InterfaceId::TransferNotification,
            InterfaceId::Approval,
            InterfaceId::Burn,
            InterfaceId::Mint,
        ]);
    }
    r
}

/// Filtering one token more: the filtered list grows by that token where the
/// test holds of it, and stays as it was where it does not.
proof fn lemma_filter_step(s: Seq<NftView>, i: int, pred: spec_fn(NftView) -> bool)
    requires
        0 <= i < s.len(),
    ensures
        s.subrange(0, i + 1).filter(pred) == if pred(s[i]) {
            s.subrange(0, i).filter(pred).push(s[i])
        } else {
            s.subrange(0, i).filter(pred)
        },
        s.subrange(0, i).filter(pred).len() <= i,
{
    reveal(Seq::filter);
    assert(s.subrange(0, i + 1).drop_last() =~= s.subrange(0, i));
    s.subrange(0, i).lemma_filter_len(pred);
}

/// What the registry is set up with.
#[derive(Debug)]
pub struct InitArgs {
    /// The custodians; where none are given, the caller is the custodian.
    pub custodians: Option<Vec<Identity>>,
    pub logo: Option<LogoResult>,
    pub name: String,
    pub symbol: String,
    pub white_list: Vec<Identity>,
    pub begin_date: String,
    pub end_date: String,
    pub total_limit: String,
}

/// The custodians of a new registry: those given, or else the caller.
pub open spec fn first_custodians(given: Option<Vec<Identity>>, caller: Seq<u8>) -> Set<Seq<u8>> {
    match given {
        Some(list) => members(list@),
        None => set![caller],
    }
}

/// The registry that `args` and `caller` set up, with `window` as its
/// mint window.
pub open spec fn set_up(args: InitArgs, caller: Seq<u8>, window: MintWindow) -> StateView {
    initial(
        first_custodians(args.custodians, caller),
        logo_view(args.logo),
        args.name@,
        args.symbol@,
        identities_view(args.white_list@),
        args.begin_date@,
        args.end_date@,
        args.total_limit@,
        window,
    )
}

/// The registry as it is kept across a restart: plain lists and texts,
/// without the mint window, which is read again from the two dates.
#[derive(Debug)]
pub struct StableState {
    pub nfts: Vec<Nft>,
    pub custodians: Vec<Identity>,
    pub operators: Vec<Grant>,
    pub logo: Option<LogoResult>,
    pub name: String,
    pub symbol: String,
    pub txid: u128,
    pub white_list: Vec<Identity>,
    pub begin_date: String,
    pub end_date: String,
    pub total_limit: String,
    pub hashes: Vec<Vec<u8>>,
}

impl View for StableState {
    type V = StableView;

    open spec fn view(&self) -> StableView {
        StableView {
            tokens: tokens_view(self.nfts@),
            custodians: members(self.custodians@),
            operators: pairs(self.operators@),
            logo: logo_view(self.logo),
            name: self.name@,
            symbol: self.symbol@,
            txid: self.txid as nat,
            white_list: identities_view(self.white_list@),
            begin_date: self.begin_date@,
            end_date: self.end_date@,
            total_limit: self.total_limit@,
            hashes: digests_view(self.hashes@),
        }
    }
}

impl StableState {
    /// Every token is well formed.
    pub open spec fn wf(&self) -> bool {
        tokens_wf(self.nfts@)
    }
}

/// The registry: the tokens, who administers it, who may act for whom, and
/// the terms of the public mint.
#[derive(Debug)]
pub struct State {
    nfts: Vec<Nft>,
    custodians: IdentitySet,
    operators: Operators,
    logo: Option<LogoResult>,
    name: String,
    symbol: String,
    txid: u128,
    white_list: Vec<Identity>,
    begin_date: String,
    end_date: String,
    total_limit: String,
    window: MintWindow,
    hashes: ContentHashIndex,
}

impl View for State {
    type V = StateView;

    closed spec fn view(&self) -> StateView {
        StateView {
            tokens: tokens_view(self.nfts@),
            custodians: self.custodians@,
            operators: self.operators@,
            logo: logo_view(self.logo),
            name: self.name@,
            symbol: self.symbol@,
            txid: self.txid as nat,
            white_list: identities_view(self.white_list@),
            begin_date: self.begin_date@,
            end_date: self.end_date@,
            total_limit: self.total_limit@,
            window: self.window,
            hashes: self.hashes@,
        }
    }
}

impl State {
    /// The registry is well formed: its view meets the invariant, its sets
    /// list nothing twice, and its digests and metadata are well formed.
    pub closed spec fn wf(&self) -> bool {
        &&& self@.inv()
        &&& self.custodians.wf()
        &&& self.operators.wf()
        &&& tokens_wf(self.nfts@)
    }

    /// A well-formed registry meets the invariant of its view.
    pub proof fn lemma_wf(&self)
        requires
            self.wf(),
        ensures
            self@.inv(),
    {
    }

    /// Sets up a registry. The two dates must be readable: a registry
    /// cannot start without its mint window.
    pub fn init(args: InitArgs, caller: Identity) -> (r: State)
        requires
            window_of(args.begin_date@, args.end_date@) is Some,
        ensures
            r.wf(),
            r@ == set_up(args, caller@, window_of(args.begin_date@, args.end_date@).unwrap()),
    {
        let window = read_window(args.begin_date.as_str(), args.end_date.as_str()).unwrap();
        let custodians = match &args.custodians {
            Some(list) => IdentitySet::from_vec(list),
            None => {
                let mut set = IdentitySet::new();
                set.insert(caller);
                set
            },
        };
        let state = State {
            nfts: Vec::new(),
            custodians,
            operators: Operators::new(),
            logo: args.logo,
            name: args.name,
            symbol: args.symbol,
            txid: 0,
            white_list: args.white_list,
            begin_date: args.begin_date,
            end_date: args.end_date,
            total_limit: args.total_limit,
            window,
            hashes: ContentHashIndex::new(),
        };
        proof {
            assert(state@.tokens =~= Seq::<NftView>::empty());
            assert(first_custodians(args.custodians, caller@) =~= state@.custodians);
        }
        state
    }

    /// Sets up a registry where the two dates can be read, and says so
    /// where they cannot.
    pub fn try_init(args: InitArgs, caller: Identity) -> (r: Option<State>)
        ensures
            match r {
                Some(state) => {
                    &&& window_of(args.begin_date@, args.end_date@) is Some
                    &&& state.wf()
                    &&& state@ == set_up(
                        args,
                        caller@,
                        window_of(args.begin_date@, args.end_date@).unwrap(),
                    )
                },
                None => window_of(args.begin_date@, args.end_date@) is None,
            },
    {
        if read_window(args.begin_date.as_str(), args.end_date.as_str()).is_some() {
            Some(State::init(args, caller))
        } else {
            None
        }
    }

    /// Takes the registry apart into what is kept across a restart.
    pub fn snapshot(self) -> (r: StableState)
        requires
            self.wf(),
        ensures
            r.wf(),
            r@ == self@.stable(),
    {
        let custodians = self.custodians.to_vec();
        let operators = self.operators.to_vec();
        StableState {
            nfts: self.nfts,
            custodians,
            operators,
            logo: self.logo,
            name: self.name,
            symbol: self.symbol,
            txid: self.txid,
            white_list: self.white_list,
            begin_date: self.begin_date,
            end_date: self.end_date,
            total_limit: self.total_limit,
            hashes: self.hashes.into_digests(),
        }
    }

    /// Makes the registry again of what was kept, where that is possible:
    /// where the ids are the places of the tokens, each token has its one
    /// digest, and the two dates can be read.
    pub fn restore(stable: StableState) -> (r: Option<State>)
        requires
            stable.wf(),
        ensures
            match r {
                Some(state) => {
                    &&& stable@.restorable()
                    &&& state.wf()
                    &&& state@ == stable@.restored()
                },
                None => !stable@.restorable(),
            },
    {
        if stable.hashes.len() != stable.nfts.len() {
            return None;
        }
        let mut i: usize = 0;
        while i < stable.nfts.len()
            invariant
                i <= stable.nfts@.len(),
                forall|j: int| 0 <= j < i ==> (#[trigger] stable.nfts@[j])@.id == j,
            decreases stable.nfts@.len() - i,
        {
            if stable.nfts[i].id != i as u64 {
                proof {
                    assert(stable@.tokens[i as int].id != i);
                }
                return None;
            }
            i += 1;
        }
        match read_window(stable.begin_date.as_str(), stable.end_date.as_str()) {
            None => None,
            Some(window) => {
                proof {
                    assert forall|j: int| 0 <= j < stable@.tokens.len() implies (
                    #[trigger] stable@.tokens[j]).id == j by {
                        assert(stable.nfts@[j]@.id == j);
                    }
                }
                Some(
                    State {
                        nfts: stable.nfts,
                        custodians: IdentitySet::from_vec(&stable.custodians),
                        operators: Operators::from_vec(&stable.operators),
                        logo: stable.logo,
                        name: stable.name,
                        symbol: stable.symbol,
                        txid: stable.txid,
                        white_list: stable.white_list,
                        begin_date: stable.begin_date,
                        end_date: stable.end_date,
                        total_limit: stable.total_limit,
                        window,
                        hashes: ContentHashIndex::from_digests(stable.hashes),
                    },
                )
            },
        }
    }

    /// Gives out the next transaction id.
    pub fn next_txid(&mut self) -> (r: u128)
        requires
            old(self).wf(),
            old(self)@.txid < u128::MAX,
        ensures
            final(self).wf(),
            r == old(self)@.txid,
            final(self)@ == old(self)@.advanced(),
    {
        let txid = self.txid;
        self.txid += 1;
        txid
    }

    /// The transaction id that the next successful mutation returns.
    pub fn txid(&self) -> (r: u128)
        requires
            self.wf(),
        ensures
            r == self@.txid,
    {
        self.txid
    }

    /// How many tokens `user` owns.
    pub fn balance_of(&self, user: &Identity) -> (r: u64)
        requires
            self.wf(),
        ensures
            r == self@.balance_of(user@),
    {
        let ghost tokens = self@.tokens;
        let ghost pred = owned_by(user@);
        let mut count: u64 = 0;
        let mut i: usize = 0;
        proof {
            reveal(Seq::filter);
            assert(tokens.subrange(0, 0) =~= Seq::<NftView>::empty());
        }
        while i < self.nfts.len()
            invariant
                i <= self.nfts@.len(),
                tokens == self@.tokens,
                tokens.len() == self.nfts@.len(),
                pred == owned_by(user@),
                count == tokens.subrange(0, i as int).filter(pred).len(),
                count <= i,
            decreases self.nfts@.len() - i,
        {
            proof {
                lemma_filter_step(tokens, i as int, pred);
            }
            if self.nfts[i].owner.same(user) {
                count += 1;
            }
            i += 1;
        }
        proof {
            assert(tokens.subrange(0, i as int) =~= tokens);
        }
        count
    }

    /// The owner of a token.
    pub fn owner_of(&self, token_id: u64) -> (r: Result<Identity, Error>)
        requires
            self.wf(),
        ensures
            match r {
                Ok(owner) => self@.owner_of(token_id) == Ok::<Seq<u8>, Error>(owner@),
                Err(e) => self@.owner_of(token_id) == Err::<Seq<u8>, Error>(e),
            },
    {
        if token_id >= self.nfts.len() as u64 {
            return Err(Error::InvalidTokenId);
        }
        Ok(self.nfts[token_id as usize].owner.clone())
    }

    /// The token with the given id.
    pub fn token(&self, token_id: u64) -> (r: Result<&Nft, Error>)
        requires
            self.wf(),
        ensures
            match r {
                Ok(nft) => self@.valid_id(token_id) && nft@ == self@.tokens[token_id as int]
                    && nft.wf(),
                Err(e) => !self@.valid_id(token_id) && e == Error::InvalidTokenId,
            },
    {
        if token_id >= self.nfts.len() as u64 {
            return Err(Error::InvalidTokenId);
        }
        Ok(&self.nfts[token_id as usize])
    }

    /// The name of the collection.
    pub fn name(&self) -> (r: String)
        ensures
            r@ == self@.name,
    {
        self.name.clone()
    }

    /// The symbol of the collection.
    pub fn symbol(&self) -> (r: String)
        ensures
            r@ == self@.symbol,
    {
        self.symbol.clone()
    }

    /// The logo that was set, if one was.
    pub fn logo(&self) -> (r: Option<&LogoResult>)
        ensures
            match r {
                Some(l) => self@.logo == Some(l@),
                None => self@.logo is None,
            },
    {
        self.logo.as_ref()
    }

    /// How many tokens were minted.
    pub fn total_supply(&self) -> (r: u64)
        requires
            self.wf(),
        ensures
            r == self@.tokens.len(),
    {
        self.nfts.len() as u64
    }

    /// The metadata of a token.
    pub fn get_metadata(&self, token_id: u64) -> (r: Result<&Vec<MetadataPart>, Error>)
        requires
            self.wf(),
        ensures
            match r {
                Ok(parts) => self@.valid_id(token_id) && parts_view(parts@)
                    == self@.tokens[token_id as int].metadata && parts_wf(parts@),
                Err(e) => !self@.valid_id(token_id) && e == Error::InvalidTokenId,
            },
    {
        if token_id >= self.nfts.len() as u64 {
            return Err(Error::InvalidTokenId);
        }
        Ok(&self.nfts[token_id as usize].metadata)
    }

    /// The metadata of every token that `user` owns, by rising id.
    pub fn get_metadata_for_user<'a>(
        &'a self,
        user: &Identity,
    ) -> (r: Vec<ExtendedMetadataResult<'a>>)
        requires
            self.wf(),
        ensures
            r@.len() == self@.tokens_of(user@).len(),
            forall|k: int|
                0 <= k < r@.len() ==> {
                    &&& (#[trigger] r@[k]).token_id == self@.tokens_of(user@)[k].id
                    &&& parts_view(r@[k].metadata_desc@) == self@.tokens_of(user@)[k].metadata
                    &&& parts_wf(r@[k].metadata_desc@)
                },
    {
        let ghost tokens = self@.tokens;
        let ghost pred = owned_by(user@);
        let mut found: Vec<ExtendedMetadataResult<'a>> = Vec::new();
        let mut i: usize = 0;
        proof {
            reveal(Seq::filter);
            assert(tokens.subrange(0, 0) =~= Seq::<NftView>::empty());
        }
        while i < self.nfts.len()
            invariant
                i <= self.nfts@.len(),
                self.wf(),
                tokens == self@.tokens,
                tokens.len() == self.nfts@.len(),
                pred == owned_by(user@),
                found@.len() == tokens.subrange(0, i as int).filter(pred).len(),
                forall|k: int|
                    0 <= k < found@.len() ==> {
                        &&& (#[trigger] found@[k]).token_id == tokens.subrange(0, i as int).filter(
                            pred,
                        )[k].id
                        &&& parts_view(found@[k].metadata_desc@) == tokens.subrange(
                            0,
                            i as int,
                        ).filter(pred)[k].metadata
                        &&& parts_wf(found@[k].metadata_desc@)
                    },
            decreases self.nfts@.len() - i,
        {
            proof {
                lemma_filter_step(tokens, i as int, pred);
            }
            let nft = &self.nfts[i];
            if nft.owner.same(user) {
                found.push(
                    ExtendedMetadataResult { metadata_desc: &nft.metadata, token_id: nft.id },
                );
            }
            i += 1;
        }
        proof {
            assert(tokens.subrange(0, i as int) =~= tokens);
        }
        found
    }

    /// The approved delegate of a token; the caller where it has none.
    pub fn _get_approved(&self, caller: Identity, token_id: u64) -> (r: Result<Identity, Error>)
        requires
            self.wf(),
        ensures
            match r {
                Ok(a) => {
                    &&& self@.valid_id(token_id)
                    &&& a@ == match self@.tokens[token_id as int].approved {
                        Some(delegate) => delegate,
                        None => caller@,
                    }
                },
                Err(e) => !self@.valid_id(token_id) && e == Error::InvalidTokenId,
            },
    {
        if token_id >= self.nfts.len() as u64 {
            return Err(Error::InvalidTokenId);
        }
        match &self.nfts[token_id as usize].approved {
            Some(a) => Ok(a.clone()),
            None => Ok(caller),
        }
    }

    /// Whether `caller` has granted `operator` a blanket approval.
    pub fn is_approved_for_all(&self, caller: &Identity, operator: &Identity) -> (r: bool)
        ensures
            r == self@.operators.contains((caller@, operator@)),
    {
        self.operators.contains(caller, operator)
    }

    /// Whether `who` is on the whitelist of the public mint.
    pub fn is_listed(&self, who: &Identity) -> (r: bool)
        ensures
            r == self@.white_list.contains(who@),
    {
        let mut i: usize = 0;
        while i < self.white_list.len()
            invariant
                i <= self.white_list@.len(),
                forall|j: int| 0 <= j < i ==> self.white_list@[j]@ != who@,
            decreases self.white_list@.len() - i,
        {
            if self.white_list[i].same(who) {
                proof {
                    assert(self@.white_list[i as int] == who@);
                }
                return true;
            }
            i += 1;
        }
        proof {
            assert forall|j: int| 0 <= j < self@.white_list.len() implies self@.white_list[j]
                != who@ by {
                assert(self.white_list@[j]@ != who@);
            }
        }
        false
    }

    /// The whitelist of the public mint, in its order.
    pub fn white_list(&self) -> (r: Result<Vec<Identity>, Error>)
        ensures
            r is Ok,
            identities_view(r->Ok_0@) == self@.white_list,
    {
        let mut list: Vec<Identity> = Vec::new();
        let mut i: usize = 0;
        while i < self.white_list.len()
            invariant
                i <= self.white_list@.len(),
                list@.len() == i,
                forall|j: int| 0 <= j < i ==> list@[j]@ == self.white_list@[j]@,
            decreases self.white_list@.len() - i,
        {
            list.push(self.white_list[i].clone());
            i += 1;
        }
        proof {
            assert(identities_view(list@) =~= self@.white_list);
        }
        Ok(list)
    }

    /// The two dates of the mint window as they were given, with a comma
    /// between them.
    pub fn nft_mint_date(&self) -> (r: String)
        ensures
            r@ == self@.begin_date + ","@ + self@.end_date,
    {
        self.begin_date.clone().concat(",").concat(self.end_date.as_str())
    }

    /// The total limit as it was given. Nothing is held to it.
    pub fn total_limit(&self) -> (r: String)
        ensures
            r@ == self@.total_limit,
    {
        self.total_limit.clone()
    }

    /// The mint window.
    pub fn window(&self) -> (r: MintWindow)
        ensures
            r == self@.window,
    {
        self.window
    }

    /// Whether `who` is a custodian.
    pub fn is_custodian(&self, who: &Identity) -> (r: bool)
        ensures
            r == self@.custodians.contains(who@),
    {
        self.custodians.contains(who)
    }

    /// The digest recorded for a token in the content-hash index.
    pub fn content_hash(&self, token_id: u64) -> (r: Result<&Vec<u8>, Error>)
        requires
            self.wf(),
        ensures
            match r {
                Ok(d) => self@.valid_id(token_id) && d@ == self@.hashes[token_id as int],
                Err(e) => !self@.valid_id(token_id) && e == Error::InvalidTokenId,
            },
    {
        match self.hashes.get(token_id) {
            Some(d) => Ok(d),
            None => Err(Error::InvalidTokenId),
        }
    }

    /// Whether `caller` may move or approve the token at place `i` on behalf
    /// of `subject`.
    fn may_act(&self, caller: &Identity, subject: &Identity, i: usize) -> (r: bool)
        requires
            i < self@.tokens.len(),
        ensures
            r == self@.authorized(caller@, subject@, i as u64),
    {
        let nft = &self.nfts[i];
        let is_approved = match &nft.approved {
            Some(a) => a.same(caller),
            None => false,
        };
        nft.owner.same(caller) || is_approved || self.operators.contains(subject, caller)
            || self.custodians.contains(caller)
    }

    /// Whether `caller` may move or approve a token on behalf of `subject`:
    /// as the token's owner, as its approved delegate, as an operator of
    /// `subject`, or as a custodian.
    pub fn is_authorized(
        &self,
        caller: &Identity,
        subject: &Identity,
        token_id: u64,
    ) -> (r: Result<bool, Error>)
        requires
            self.wf(),
        ensures
            r == self@.authorized_outcome(caller@, subject@, token_id),
    {
        if token_id >= self.nfts.len() as u64 {
            return Err(Error::InvalidTokenId);
        }
        Ok(self.may_act(caller, subject, token_id as usize))
    }

    /// Moves a token from `from` to `to`, at the request of `caller`.
    pub fn transfer_from(
        &mut self,
        caller: &Identity,
        from: &Identity,
        to: Identity,
        token_id: u64,
    ) -> (r: Result<u128, Error>)
        requires
            old(self).wf(),
            old(self)@.txid < u128::MAX,
        ensures
            final(self).wf(),
            r == old(self)@.transfer_outcome(caller@, from@, token_id),
            final(self)@ == if r is Ok {
                old(self)@.transferred(to@, token_id)
            } else {
                old(self)@
            },
    {
        if token_id >= self.nfts.len() as u64 {
            return Err(Error::InvalidTokenId);
        }
        let i = token_id as usize;
        if !self.may_act(caller, from, i) {
            Err(Error::Unauthorized)
        } else if !self.nfts[i].owner.same(from) {
            Err(Error::OwnershipMismatch)
        } else {
            self.nfts[i].approved = None;
            self.nfts[i].owner = to;
            proof {
                assert(self@.tokens =~= old(self)@.transferred(to@, token_id).tokens);
            }
            Ok(self.next_txid())
        }
    }
    /// Moves a token as `transfer_from` does, but never to the sentinel
    /// identity.
    pub fn safe_transfer_from(
        &mut self,
        caller: &Identity,
        from: &Identity,
        to: Identity,
        token_id: u64,
    ) -> (r: Result<u128, Error>)
        requires
            old(self).wf(),
            old(self)@.txid < u128::MAX,
        ensures
            final(self).wf(),
            r == old(self)@.safe_transfer_outcome(caller@, from@, to@, token_id),
            final(self)@ == if r is Ok {
                old(self)@.transferred(to@, token_id)
            } else {
                old(self)@
            },
    {
        if to.is_sentinel() {
            Err(Error::ZeroAddress)
        } else {
            self.transfer_from(caller, from, to, token_id)
        }
    }

    /// Moves a token as `transfer_from` does and, where that succeeded, says
    /// what to tell the new owner.
    pub fn transfer_from_notify(
        &mut self,
        caller: &Identity,
        from: &Identity,
        to: Identity,
        token_id: u64,
        data: Vec<u8>,
    ) -> (r: Result<(u128, Notification), Error>)
        requires
            old(self).wf(),
            old(self)@.txid < u128::MAX,
        ensures
            final(self).wf(),
            match r {
                Ok((txid, note)) => {
                    &&& old(self)@.transfer_outcome(caller@, from@, token_id) == Ok::<u128, Error>(
                        txid,
                    )
                    &&& final(self)@ == old(self)@.transferred(to@, token_id)
                    &&& note.recipient@ == to@
                    &&& note.caller@ == caller@
                    &&& note.from@ == from@
                    &&& note.token_id == token_id
                    &&& note.data@ == data@
                },
                Err(e) => {
                    &&& old(self)@.transfer_outcome(caller@, from@, token_id) == Err::<u128, Error>(
                        e,
                    )
                    &&& final(self)@ == old(self)@
                },
            },
    {
        let recipient = to.clone();
        match self.transfer_from(caller, from, to, token_id) {
            Ok(txid) => Ok(
                (
                    txid,
                    Notification {
                        recipient,
                        caller: caller.clone(),
                        from: from.clone(),
                        token_id,
                        data,
                    },
                ),
            ),
            Err(e) => Err(e),
        }
    }

    /// Moves a token as `safe_transfer_from` does and, where that succeeded,
    /// says what to tell the new owner.
    pub fn safe_transfer_from_notify(
        &mut self,
        caller: &Identity,
        from: &Identity,
        to: Identity,
        token_id: u64,
        data: Vec<u8>,
    ) -> (r: Result<(u128, Notification), Error>)
        requires
            old(self).wf(),
            old(self)@.txid < u128::MAX,
        ensures
            final(self).wf(),
            match r {
                Ok((txid, note)) => {
                    &&& old(self)@.safe_transfer_outcome(caller@, from@, to@, token_id) == Ok::<
                        u128,
                        Error,
                    >(txid)
                    &&& final(self)@ == old(self)@.transferred(to@, token_id)
                    &&& note.recipient@ == to@
                    &&& note.caller@ == caller@
                    &&& note.from@ == from@
                    &&& note.token_id == token_id
                    &&& note.data@ == data@
                },
                Err(e) => {
                    &&& old(self)@.safe_transfer_outcome(caller@, from@, to@, token_id) == Err::<
                        u128,
                        Error,
                    >(e)
                    &&& final(self)@ == old(self)@
                },
            },
    {
        if to.is_sentinel() {
            Err(Error::ZeroAddress)
        } else {
            self.transfer_from_notify(caller, from, to, token_id, data)
        }
    }

    /// Makes `user` the approved delegate of a token, at the request of
    /// `caller`.
    pub fn approve(
        &mut self,
        caller: &Identity,
        user: Identity,
        token_id: u64,
    ) -> (r: Result<u128, Error>)
        requires
            old(self).wf(),
            old(self)@.txid < u128::MAX,
        ensures
            final(self).wf(),
            r == old(self)@.approve_outcome(caller@, user@, token_id),
            final(self)@ == if r is Ok {
                old(self)@.approved(user@, token_id)
            } else {
                old(self)@
            },
    {
        if token_id >= self.nfts.len() as u64 {
            return Err(Error::InvalidTokenId);
        }
        let i = token_id as usize;
        if !self.may_act(caller, &user, i) {
            Err(Error::Unauthorized)
        } else {
            self.nfts[i].approved = Some(user);
            proof {
                assert(self@.tokens =~= old(self)@.approved(user@, token_id).tokens);
            }
            Ok(self.next_txid())
        }
    }

    /// Gives `operator` a blanket approval to act for `caller`, or takes it
    /// back. Always answers with a new transaction id.
    pub fn set_approval_for_all(
        &mut self,
        caller: &Identity,
        operator: Identity,
        is_approved: bool,
    ) -> (r: Result<u128, Error>)
        requires
            old(self).wf(),
            old(self)@.txid < u128::MAX,
        ensures
            final(self).wf(),
            r == Ok::<u128, Error>(old(self)@.txid as u128),
            final(self)@ == old(self)@.approval_set(caller@, operator@, is_approved),
    {
        if !operator.same(caller) {
            if operator.is_sentinel() {
                if !is_approved {
                    self.operators.revoke_all(caller);
                }
            } else {
                if is_approved {
                    self.operators.grant(caller.clone(), operator);
                } else {
                    self.operators.revoke(caller, &operator);
                }
            }
        }
        Ok(self.next_txid())
    }

    /// Mints a token to `to` and records `digest` for it in the content-hash
    /// index. Anyone may mint.
    pub fn mint_with_digest(
        &mut self,
        to: Identity,
        metadata: Vec<MetadataPart>,
        blob_content: Vec<u8>,
        digest: Vec<u8>,
    ) -> (r: MintResult)
        requires
            old(self).wf(),
            old(self)@.txid < u128::MAX,
            parts_wf(metadata@),
        ensures
            final(self).wf(),
            r.id == old(self)@.txid,
            r.token_id == old(self)@.tokens.len(),
            final(self)@ == old(self)@.minted(
                to@,
                parts_view(metadata@),
                blob_content@,
                digest@,
            ),
    {
        let new_id = self.nfts.len() as u64;
        let nft = Nft { owner: to, approved: None, id: new_id, metadata, content: blob_content };
        self.nfts.push(nft);
        self.hashes.record(digest);
        proof {
            // A vector's length fits in `usize`, so the new id does.
            assert(self.nfts@.len() == self.nfts.len());
            assert(self@.tokens =~= old(self)@.minted(
                to@,
                parts_view(metadata@),
                blob_content@,
                digest@,
            ).tokens);
        }
        let txid = self.next_txid();
        MintResult { token_id: new_id, id: txid }
    }

    /// Mints a token to `to`. Anyone may mint. The entry of the new token
    /// in the content-hash index is the SHA-256 digest of its content.
    pub fn mint(
        &mut self,
        to: Identity,
        metadata: Vec<MetadataPart>,
        blob_content: Vec<u8>,
    ) -> (r: Result<MintResult, ConstrainedError>)
        requires
            old(self).wf(),
            old(self)@.txid < u128::MAX,
            parts_wf(metadata@),
        ensures
            final(self).wf(),
            r == Ok::<MintResult, ConstrainedError>(
                MintResult {
                    token_id: old(self)@.tokens.len() as u64,
                    id: old(self)@.txid as u128,
                },
            ),
            final(self)@ == old(self)@.minted(
                to@,
                parts_view(metadata@),
                blob_content@,
                sha256_digest(blob_content@),
            ),
    {
        let digest = sha256(blob_content.as_slice());
        Ok(self.mint_with_digest(to, metadata, blob_content, digest))
    }

    /// The public mint: mints a token for `uri` to `to`, where the URI is
    /// valid, the instant `now` lies in the mint window and `to` is on the
    /// whitelist. The token has no content; its metadata names the URI and
    /// the SHA-256 digest of the URI's text.
    pub fn simple_mint(
        &mut self,
        to: Identity,
        uri: String,
        mime_type: String,
        name: String,
        origin: String,
        now: i64,
    ) -> (r: Result<MintResult, ConstrainedError>)
        requires
            old(self).wf(),
            old(self)@.txid < u128::MAX,
        ensures
            final(self).wf(),
            match r {
                Ok(minted) => {
                    &&& old(self)@.public_mint_permit(to@, uri@, now) is Ok
                    &&& minted.id == old(self)@.txid
                    &&& minted.token_id == old(self)@.tokens.len()
                    &&& final(self)@ == old(self)@.minted(
                        to@,
                        seq![
                            uri_metadata(
                                uri@,
                                sha256_digest(encode_utf8(uri@)),
                                mime_type@,
                                name@,
                                origin@,
                            ),
                        ],
                        Seq::<u8>::empty(),
                        sha256_digest(Seq::<u8>::empty()),
                    )
                },
                Err(e) => {
                    &&& old(self)@.public_mint_permit(to@, uri@, now) == Err::<
                        (),
                        ConstrainedError,
                    >(e)
                    &&& final(self)@ == old(self)@
                },
            },
    {
        let uri_ok = is_valid_uri(uri.as_str());
        let listed = self.is_listed(&to);
        match decide(uri_ok, self.window, now, listed) {
            Err(e) => Err(e),
            Ok(()) => {
                let content_hash = sha256(uri.as_str().as_bytes());
                let part = rendered_part(uri, content_hash, mime_type, name, origin);
                let mut metadata: Vec<MetadataPart> = Vec::new();
                metadata.push(part);
                let blob_content: Vec<u8> = Vec::new();
                proof {
                    assert(parts_view(metadata@) =~= seq![part@]);
                    assert(blob_content@ =~= Seq::<u8>::empty());
                }
                self.mint(to, metadata, blob_content)
            },
        }
    }

    /// Burns a token: the sentinel identity becomes its owner. Only the
    /// owner may burn.
    pub fn burn(&mut self, caller: &Identity, token_id: u64) -> (r: Result<u128, Error>)
        requires
            old(self).wf(),
            old(self)@.txid < u128::MAX,
        ensures
            final(self).wf(),
            r == old(self)@.burn_outcome(caller@, token_id),
            final(self)@ == if r is Ok {
                old(self)@.burned(token_id)
            } else {
                old(self)@
            },
    {
        if token_id >= self.nfts.len() as u64 {
            return Err(Error::InvalidTokenId);
        }
        let i = token_id as usize;
        if !self.nfts[i].owner.same(caller) {
            Err(Error::Unauthorized)
        } else {
            self.nfts[i].owner = Identity::sentinel();
            proof {
                assert(self@.tokens =~= old(self)@.burned(token_id).tokens);
            }
            Ok(self.next_txid())
        }
    }

    /// Sets the name of the collection. Only a custodian may.
    pub fn set_name(&mut self, caller: &Identity, name: String) -> (r: Result<(), Error>)
        requires
            old(self).wf(),
        ensures
            final(self).wf(),
            r == old(self)@.admin_outcome(caller@),
            final(self)@ == if r is Ok {
                StateView { name: name@, ..old(self)@ }
            } else {
                old(self)@
            },
    {
        if self.custodians.contains(caller) {
            self.name = name;
            Ok(())
        } else {
            Err(Error::Unauthorized)
        }
    }

    /// Sets the symbol of the collection. Only a custodian may.
    pub fn set_symbol(&mut self, caller: &Identity, sym: String) -> (r: Result<(), Error>)
        requires
            old(self).wf(),
        ensures
            final(self).wf(),
            r == old(self)@.admin_outcome(caller@),
            final(self)@ == if r is Ok {
                StateView { symbol: sym@, ..old(self)@ }
            } else {
                old(self)@
            },
    {
        if self.custodians.contains(caller) {
            self.symbol = sym;
            Ok(())
        } else {
            Err(Error::Unauthorized)
        }
    }

    /// Sets or removes the logo of the collection. Only a custodian may.
    pub fn set_logo(
        &mut self,
        caller: &Identity,
        logo: Option<LogoResult>,
    ) -> (r: Result<(), Error>)
        requires
            old(self).wf(),
        ensures
            final(self).wf(),
            r == old(self)@.admin_outcome(caller@),
            final(self)@ == if r is Ok {
                StateView { logo: logo_view(logo), ..old(self)@ }
            } else {
                old(self)@
            },
    {
        if self.custodians.contains(caller) {
            self.logo = logo;
            Ok(())
        } else {
            Err(Error::Unauthorized)
        }
    }

    /// Makes `user` a custodian, or takes that right from it. Only a
    /// custodian may.
    pub fn set_custodian(
        &mut self,
        caller: &Identity,
        user: Identity,
        custodian: bool,
    ) -> (r: Result<(), Error>)
        requires
            old(self).wf(),
        ensures
            final(self).wf(),
            r == old(self)@.admin_outcome(caller@),
            final(self)@ == if r is Ok {
                StateView {
                    custodians: old(self)@.custodians_after(user@, custodian),
                    ..old(self)@
                }
            } else {
                old(self)@
            },
    {
        if self.custodians.contains(caller) {
            if custodian {
                self.custodians.insert(user);
            } else {
                self.custodians.remove(&user);
            }
            Ok(())
        } else {
            Err(Error::Unauthorized)
        }
    }
}

} // verus!
