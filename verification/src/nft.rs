//! A registry of non-fungible tokens, grouped in classes.

use vstd::prelude::*;
use std::collections::BTreeMap;
use crate::primitives::{
    ensure_signed, signer_of, AccountId, ArithmeticError, ClassId, DispatchError, DispatchResult, Origin, TokenId,
};
use crate::traits::NFTForMarketplace;

verus! {

/// What the registry keeps of a class.
#[derive(Debug, PartialEq, Eq)]
pub struct ClassInfo<Data> {
    /// Class metadata.
    pub metadata: Vec<u8>,
    /// How many tokens of the class exist.
    pub total_issuance: TokenId,
    /// Class owner.
    pub owner: AccountId,
    /// Class properties.
    pub data: Data,
}

/// What the registry keeps of a token.
#[derive(Debug, PartialEq, Eq)]
pub struct TokenInfo<Data> {
    /// Token metadata.
    pub metadata: Vec<u8>,
    /// Token owner.
    pub owner: AccountId,
    /// Token properties.
    pub data: Data,
}

impl<Data: Clone> Clone for ClassInfo<Data> {
    fn clone(&self) -> (copy: Self)
        ensures
            copy.metadata@ == self.metadata@,
            copy.total_issuance == self.total_issuance,
            copy.owner == self.owner,
            cloned(self.data, copy.data),
    {
        ClassInfo {
            metadata: self.metadata.clone(),
            total_issuance: self.total_issuance,
            owner: self.owner,
            data: self.data.clone(),
        }
    }
}

impl<Data: Clone> Clone for TokenInfo<Data> {
    fn clone(&self) -> (copy: Self)
        ensures
            copy.metadata@ == self.metadata@,
            copy.owner == self.owner,
            cloned(self.data, copy.data),
    {
        TokenInfo { metadata: self.metadata.clone(), owner: self.owner, data: self.data.clone() }
    }
}

/// The longest metadata that a class and a token may carry.
#[derive(Clone, Copy, Debug, PartialEq, Eq, Structural)]
pub struct Config {
    pub max_class_metadata: u32,
    pub max_token_metadata: u32,
}

/// Why the registry refused.
#[derive(Clone, Copy, Debug, PartialEq, Eq, Structural)]
pub enum Error {
    /// No class id is left.
    NoAvailableClassId,
    /// No token id is left in the class.
    NoAvailableTokenId,
    /// The token does not exist.
    TokenNotFound,
    /// The class does not exist.
    ClassNotFound,
    /// The caller does not own the class or the token.
    NoPermission,
    /// The class still has tokens.
    CannotDestroyClass,
    /// The metadata is longer than the configured maximum.
    MaxMetadataExceeded,
}

/// What a successful call reports.
#[derive(Clone, Copy, Debug, PartialEq, Eq, Structural)]
pub enum Event {
    ClassCreated(ClassId, AccountId),
    ClassDestroyed(ClassId, AccountId),
    TokenMinted(ClassId, TokenId, AccountId),
    TokenBurned(ClassId, TokenId, AccountId),
    TokenTransfer(ClassId, TokenId, AccountId, AccountId),
}

/// The registry as a whole.
#[verifier::ext_equal]
pub struct Registry<ClassData, TokenData> {
    /// The id that the next class gets.
    pub next_class_id: ClassId,
    /// The id that the next token of each class gets. A class without an entry
    /// stands at zero, so the map is total.
    pub next_token_id: Map<ClassId, TokenId>,
    /// The classes that exist.
    pub classes: Map<ClassId, ClassInfo<ClassData>>,
    /// The tokens that exist.
    pub tokens: Map<(ClassId, TokenId), TokenInfo<TokenData>>,
}

/// A token to mint at genesis: its owner, its metadata and its properties.
pub type GenesisTokenData<TokenData> = (AccountId, Vec<u8>, TokenData);

/// A class to create at genesis: its owner, its metadata, its properties and its tokens.
pub type GenesisClassData<ClassData, TokenData> = (AccountId, Vec<u8>, ClassData, Vec<GenesisTokenData<TokenData>>);

impl<ClassData, TokenData> Registry<ClassData, TokenData> {
    /// The registry without classes.
    pub open spec fn empty() -> Self {
        Registry {
            next_class_id: 0,
            next_token_id: Map::total(|class_id: ClassId| 0u64),
            classes: Map::empty(),
            tokens: Map::empty(),
        }
    }

    /// The registry after each of `tokens` is minted in the class in order, or the
    /// reason why the first of them that cannot be minted fails.
    pub open spec fn mint_all(self, config: Config, class_id: ClassId, tokens: Seq<GenesisTokenData<TokenData>>) -> Result<
        Self,
        DispatchError,
    >
        decreases tokens.len(),
    {
        if tokens.len() == 0 {
            Ok(self)
        } else {
            match self.mint_all(config, class_id, tokens.drop_last()) {
                Ok(minted) => match minted.mint(
                    config,
                    tokens.last().0,
                    class_id,
                    tokens.last().1,
                    tokens.last().2,
                ) {
                    Ok((registry, _)) => Ok(registry),
                    Err(e) => Err(e),
                },
                Err(e) => Err(e),
            }
        }
    }

    /// The registry after each of `classes` is created in order, each followed by
    /// its tokens, or the reason why the first step that cannot be taken fails.
    pub open spec fn create_all(self, config: Config, classes: Seq<GenesisClassData<ClassData, TokenData>>) -> Result<
        Self,
        DispatchError,
    >
        decreases classes.len(),
    {
        if classes.len() == 0 {
            Ok(self)
        } else {
            match self.create_all(config, classes.drop_last()) {
                Ok(created) => match created.create_class(
                    config,
                    classes.last().0,
                    classes.last().1,
                    classes.last().2,
                ) {
                    Ok((registry, class_id)) => registry.mint_all(config, class_id, classes.last().3@),
                    Err(e) => Err(e),
                },
                Err(e) => Err(e),
            }
        }
    }

    /// The owner of each token that exists.
    pub open spec fn owners(self) -> Map<(ClassId, TokenId), AccountId> {
        Map::new(
            |asset: (ClassId, TokenId)| self.tokens.contains_key(asset),
            |asset: (ClassId, TokenId)| self.tokens[asset].owner,
        )
    }

    /// The registry with a new class of `creator`, and the id the class got.
    pub open spec fn create_class(self, config: Config, creator: AccountId, metadata: Vec<u8>, data: ClassData) -> Result<
        (Self, ClassId),
        DispatchError,
    > {
        if metadata@.len() > config.max_class_metadata {
            Err(DispatchError::Nft(Error::MaxMetadataExceeded))
        } else if self.next_class_id + 1 > u64::MAX {
            Err(DispatchError::Nft(Error::NoAvailableClassId))
        } else {
            let class = ClassInfo { metadata, total_issuance: 0, owner: creator, data };
            Ok(
                (
                    Registry {
                        next_class_id: (self.next_class_id + 1) as u64,
                        classes: self.classes.insert(self.next_class_id, class),
                        ..self
                    },
                    self.next_class_id,
                ),
            )
        }
    }

    /// The registry with a new token of `owner` in the class, and the id the token got.
    pub open spec fn mint(
        self,
        config: Config,
        owner: AccountId,
        class_id: ClassId,
        metadata: Vec<u8>,
        data: TokenData,
    ) -> Result<(Self, TokenId), DispatchError> {
        let token_id = self.next_token_id[class_id];
        if metadata@.len() > config.max_token_metadata {
            Err(DispatchError::Nft(Error::MaxMetadataExceeded))
        } else if token_id + 1 > u64::MAX {
            Err(DispatchError::Nft(Error::NoAvailableTokenId))
        } else if !self.classes.contains_key(class_id) {
            Err(DispatchError::Nft(Error::ClassNotFound))
        } else if self.classes[class_id].total_issuance + 1 > u64::MAX {
            Err(DispatchError::Arithmetic(ArithmeticError::Overflow))
        } else {
            let class = self.classes[class_id];
            Ok(
                (
                    Registry {
                        next_token_id: self.next_token_id.insert(class_id, (token_id + 1) as u64),
                        classes: self.classes.insert(
                            class_id,
                            ClassInfo { total_issuance: (class.total_issuance + 1) as u64, ..class },
                        ),
                        tokens: self.tokens.insert((class_id, token_id), TokenInfo { metadata, owner, data }),
                        ..self
                    },
                    token_id,
                ),
            )
        }
    }

    /// The registry after the token moves from `src` to `dst`.
    pub open spec fn transfer(self, src: AccountId, dst: AccountId, class_id: ClassId, token_id: TokenId) -> Result<
        Self,
        DispatchError,
    > {
        let asset = (class_id, token_id);
        if !self.tokens.contains_key(asset) {
            Err(DispatchError::Nft(Error::TokenNotFound))
        } else if self.tokens[asset].owner != src {
            Err(DispatchError::Nft(Error::NoPermission))
        } else {
            Ok(Registry { tokens: self.tokens.insert(asset, TokenInfo { owner: dst, ..self.tokens[asset] }), ..self })
        }
    }

    /// The registry after `owner` destroys the token.
    pub open spec fn burn(self, owner: AccountId, class_id: ClassId, token_id: TokenId) -> Result<Self, DispatchError> {
        let asset = (class_id, token_id);
        if !self.tokens.contains_key(asset) {
            Err(DispatchError::Nft(Error::TokenNotFound))
        } else if self.tokens[asset].owner != owner {
            Err(DispatchError::Nft(Error::NoPermission))
        } else if !self.classes.contains_key(class_id) {
            Err(DispatchError::Nft(Error::ClassNotFound))
        } else if self.classes[class_id].total_issuance < 1 {
            Err(DispatchError::Arithmetic(ArithmeticError::Underflow))
        } else {
            let class = self.classes[class_id];
            Ok(
                Registry {
                    classes: self.classes.insert(
                        class_id,
                        ClassInfo { total_issuance: (class.total_issuance - 1) as u64, ..class },
                    ),
                    tokens: self.tokens.remove(asset),
                    ..self
                },
            )
        }
    }

    /// The registry after `owner` destroys the class, which must have no tokens.
    pub open spec fn destroy_class(self, owner: AccountId, class_id: ClassId) -> Result<Self, DispatchError> {
        if !self.classes.contains_key(class_id) {
            Err(DispatchError::Nft(Error::ClassNotFound))
        } else if self.classes[class_id].owner != owner {
            Err(DispatchError::Nft(Error::NoPermission))
        } else if self.classes[class_id].total_issuance != 0 {
            Err(DispatchError::Nft(Error::CannotDestroyClass))
        } else {
            Ok(
                Registry {
                    next_token_id: self.next_token_id.insert(class_id, 0),
                    classes: self.classes.remove(class_id),
                    ..self
                },
            )
        }
    }

    /// The registry after `creator` mints a token for `owner` in a class of its own.
    pub open spec fn mint_token(
        self,
        config: Config,
        creator: AccountId,
        owner: AccountId,
        class_id: ClassId,
        metadata: Vec<u8>,
        data: TokenData,
    ) -> Result<(Self, TokenId), DispatchError> {
        if !self.classes.contains_key(class_id) {
            Err(DispatchError::Nft(Error::ClassNotFound))
        } else if self.classes[class_id].owner != creator {
            Err(DispatchError::Nft(Error::NoPermission))
        } else {
            self.mint(config, owner, class_id, metadata, data)
        }
    }
}

/// The registry's storage.
pub struct Pallet<ClassData, TokenData> {
    pub config: Config,
    pub next_class_id: ClassId,
    pub next_token_id: BTreeMap<ClassId, TokenId>,
    pub classes: BTreeMap<ClassId, ClassInfo<ClassData>>,
    pub tokens: BTreeMap<(ClassId, TokenId), TokenInfo<TokenData>>,
}

impl<ClassData, TokenData> View for Pallet<ClassData, TokenData> {
    type V = Registry<ClassData, TokenData>;

    open spec fn view(&self) -> Registry<ClassData, TokenData> {
        Registry {
            next_class_id: self.next_class_id,
            next_token_id: Map::total(
                |class_id: ClassId|
                    if self.next_token_id@.contains_key(class_id) {
                        self.next_token_id@[class_id]
                    } else {
                        0
                    },
            ),
            classes: self.classes@,
            tokens: self.tokens@,
        }
    }
}

impl<ClassData, TokenData> Pallet<ClassData, TokenData> {
    /// A registry without classes.
    pub fn new(config: Config) -> (pallet: Self)
        ensures
            pallet.config == config,
            pallet@ == Registry::<ClassData, TokenData>::empty(),
    {
        Pallet {
            config,
            next_class_id: 0,
            next_token_id: BTreeMap::new(),
            classes: BTreeMap::new(),
            tokens: BTreeMap::new(),
        }
    }

    /// The id that the next class gets.
    pub fn next_class_id(&self) -> (id: ClassId)
        ensures
            id == self@.next_class_id,
    {
        self.next_class_id
    }

    /// The id that the next token of the class gets.
    pub fn next_token_id(&self, class_id: ClassId) -> (id: TokenId)
        ensures
            id == self@.next_token_id[class_id],
    {
        match self.next_token_id.get(&class_id) {
            Some(id) => *id,
            None => 0,
        }
    }

    /// What the registry keeps of the class, if it exists.
    pub fn classes(&self, class_id: ClassId) -> (class: Option<&ClassInfo<ClassData>>)
        ensures
            match class {
                Some(info) => self@.classes.contains_key(class_id) && *info == self@.classes[class_id],
                None => !self@.classes.contains_key(class_id),
            },
    {
        self.classes.get(&class_id)
    }

    /// What the registry keeps of the token, if it exists.
    pub fn tokens(&self, class_id: ClassId, token_id: TokenId) -> (token: Option<&TokenInfo<TokenData>>)
        ensures
            match token {
                Some(info) => self@.tokens.contains_key((class_id, token_id)) && *info == self@.tokens[(
                    class_id,
                    token_id,
                )],
                None => !self@.tokens.contains_key((class_id, token_id)),
            },
    {
        self.tokens.get(&(class_id, token_id))
    }

    /// Creates a class owned by the signer of `origin`.
    pub fn create_class(&mut self, origin: Origin, metadata: Vec<u8>, data: ClassData) -> (r: Result<
        Event,
        DispatchError,
    >)
        ensures
            final(self).config == old(self).config,
            r is Err ==> *final(self) == *old(self),
            match signer_of(origin) {
                Ok(creator) => match old(self)@.create_class(old(self).config, creator, metadata, data) {
                    Ok((registry, class_id)) => {
                        &&& r == Ok::<Event, DispatchError>(Event::ClassCreated(class_id, creator))
                        &&& final(self)@ == registry
                    },
                    Err(e) => r == Err::<Event, DispatchError>(e),
                },
                Err(e) => r == Err::<Event, DispatchError>(e),
            },
    {
        let creator = match ensure_signed(origin) {
            Ok(who) => who,
            Err(e) => {
                return Err(e);
            },
        };
        match self.do_create_class(&creator, metadata, data) {
            Ok((_, event)) => Ok(event),
            Err(e) => Err(e),
        }
    }

    /// Mints a token for `owner` in a class that the signer of `origin` owns.
    pub fn mint_token(
        &mut self,
        origin: Origin,
        owner: AccountId,
        class_id: ClassId,
        metadata: Vec<u8>,
        data: TokenData,
    ) -> (r: Result<Event, DispatchError>)
        ensures
            final(self).config == old(self).config,
            r is Err ==> *final(self) == *old(self),
            match signer_of(origin) {
                Ok(creator) => match old(self)@.mint_token(
                    old(self).config,
                    creator,
                    owner,
                    class_id,
                    metadata,
                    data,
                ) {
                    Ok((registry, token_id)) => {
                        &&& r == Ok::<Event, DispatchError>(Event::TokenMinted(class_id, token_id, owner))
                        &&& final(self)@ == registry
                    },
                    Err(e) => r == Err::<Event, DispatchError>(e),
                },
                Err(e) => r == Err::<Event, DispatchError>(e),
            },
    {
        let creator = match ensure_signed(origin) {
            Ok(who) => who,
            Err(e) => {
                return Err(e);
            },
        };
        match self.classes.get(&class_id) {
            Some(class) => {
                if creator != class.owner {
                    return Err(DispatchError::Nft(Error::NoPermission));
                }
            },
            None => {
                return Err(DispatchError::Nft(Error::ClassNotFound));
            },
        }
        match self.mint(&owner, class_id, metadata, data) {
            Ok((_, event)) => Ok(event),
            Err(e) => Err(e),
        }
    }

    /// Moves a token of the signer of `origin` to `dst`.
    pub fn transfer_token(&mut self, origin: Origin, dst: AccountId, class_id: ClassId, token_id: TokenId) -> (r:
        Result<Event, DispatchError>)
        ensures
            final(self).config == old(self).config,
            r is Err ==> *final(self) == *old(self),
            match signer_of(origin) {
                Ok(src) => match old(self)@.transfer(src, dst, class_id, token_id) {
                    Ok(registry) => {
                        &&& r == Ok::<Event, DispatchError>(Event::TokenTransfer(class_id, token_id, src, dst))
                        &&& final(self)@ == registry
                    },
                    Err(e) => r == Err::<Event, DispatchError>(e),
                },
                Err(e) => r == Err::<Event, DispatchError>(e),
            },
    {
        let src = match ensure_signed(origin) {
            Ok(who) => who,
            Err(e) => {
                return Err(e);
            },
        };
        self.transfer(&src, &dst, class_id, token_id)
    }

    /// Destroys a token of the signer of `origin`.
    pub fn burn_token(&mut self, origin: Origin, class_id: ClassId, token_id: TokenId) -> (r: Result<
        Event,
        DispatchError,
    >)
        ensures
            final(self).config == old(self).config,
            r is Err ==> *final(self) == *old(self),
            match signer_of(origin) {
                Ok(owner) => match old(self)@.burn(owner, class_id, token_id) {
                    Ok(registry) => {
                        &&& r == Ok::<Event, DispatchError>(Event::TokenBurned(class_id, token_id, owner))
                        &&& final(self)@ == registry
                    },
                    Err(e) => r == Err::<Event, DispatchError>(e),
                },
                Err(e) => r == Err::<Event, DispatchError>(e),
            },
    {
        let owner = match ensure_signed(origin) {
            Ok(who) => who,
            Err(e) => {
                return Err(e);
            },
        };
        self.burn(&owner, class_id, token_id)
    }

    /// Destroys a class of the signer of `origin`.
    pub fn destroy_class(&mut self, origin: Origin, class_id: ClassId) -> (r: Result<Event, DispatchError>)
        ensures
            final(self).config == old(self).config,
            r is Err ==> *final(self) == *old(self),
            match signer_of(origin) {
                Ok(owner) => match old(self)@.destroy_class(owner, class_id) {
                    Ok(registry) => {
                        &&& r == Ok::<Event, DispatchError>(Event::ClassDestroyed(class_id, owner))
                        &&& final(self)@ == registry
                    },
                    Err(e) => r == Err::<Event, DispatchError>(e),
                },
                Err(e) => r == Err::<Event, DispatchError>(e),
            },
    {
        let owner = match ensure_signed(origin) {
            Ok(who) => who,
            Err(e) => {
                return Err(e);
            },
        };
        self.do_destroy_class(&owner, class_id)
    }

    /// Creates a class owned by `creator` and returns its id.
    pub fn do_create_class(&mut self, creator: &AccountId, metadata: Vec<u8>, data: ClassData) -> (r: Result<
        (ClassId, Event),
        DispatchError,
    >)
        ensures
            final(self).config == old(self).config,
            r is Err ==> *final(self) == *old(self),
            match old(self)@.create_class(old(self).config, *creator, metadata, data) {
                Ok((registry, class_id)) => {
                    &&& r == Ok::<(ClassId, Event), DispatchError>((class_id, Event::ClassCreated(class_id, *creator)))
                    &&& final(self)@ == registry
                },
                Err(e) => r == Err::<(ClassId, Event), DispatchError>(e),
            },
    {
        if metadata.len() > self.config.max_class_metadata as usize {
            return Err(DispatchError::Nft(Error::MaxMetadataExceeded));
        }
        let class_id = self.next_class_id;
        let next_id: ClassId = match class_id.checked_add(1) {
            Some(id) => id,
            None => {
                return Err(DispatchError::Nft(Error::NoAvailableClassId));
            },
        };
        self.next_class_id = next_id;
        let new_class = ClassInfo { metadata, total_issuance: 0, owner: *creator, data };
        self.classes.insert(class_id, new_class);
        Ok((class_id, Event::ClassCreated(class_id, *creator)))
    }

    /// Mints a token for `owner` in the class and returns its id.
    pub fn mint(&mut self, owner: &AccountId, class_id: ClassId, metadata: Vec<u8>, data: TokenData) -> (r: Result<
        (TokenId, Event),
        DispatchError,
    >)
        ensures
            final(self).config == old(self).config,
            r is Err ==> *final(self) == *old(self),
            match old(self)@.mint(old(self).config, *owner, class_id, metadata, data) {
                Ok((registry, token_id)) => {
                    &&& r == Ok::<(TokenId, Event), DispatchError>(
                        (token_id, Event::TokenMinted(class_id, token_id, *owner)),
                    )
                    &&& final(self)@ == registry
                },
                Err(e) => r == Err::<(TokenId, Event), DispatchError>(e),
            },
    {
        if metadata.len() > self.config.max_token_metadata as usize {
            return Err(DispatchError::Nft(Error::MaxMetadataExceeded));
        }
        let token_id = self.next_token_id(class_id);
        let next_id: TokenId = match token_id.checked_add(1) {
            Some(id) => id,
            None => {
                return Err(DispatchError::Nft(Error::NoAvailableTokenId));
            },
        };
        let issuance: TokenId = match self.classes.get(&class_id) {
            Some(class) => match class.total_issuance.checked_add(1) {
                Some(n) => n,
                None => {
                    return Err(DispatchError::Arithmetic(ArithmeticError::Overflow));
                },
            },
            None => {
                return Err(DispatchError::Nft(Error::ClassNotFound));
            },
        };
        match self.classes.remove(&class_id) {
            Some(class) => {
                self.classes.insert(class_id, ClassInfo { total_issuance: issuance, ..class });
            },
            None => {},
        }
        self.next_token_id.insert(class_id, next_id);
        self.tokens.insert((class_id, token_id), TokenInfo { metadata, owner: *owner, data });
        Ok((token_id, Event::TokenMinted(class_id, token_id, *owner)))
    }

    /// Moves the token from `src`, its owner, to `dst`.
    pub fn transfer(&mut self, src: &AccountId, dst: &AccountId, class_id: ClassId, token_id: TokenId) -> (r: Result<
        Event,
        DispatchError,
    >)
        ensures
            final(self).config == old(self).config,
            r is Err ==> *final(self) == *old(self),
            match old(self)@.transfer(*src, *dst, class_id, token_id) {
                Ok(registry) => {
                    &&& r == Ok::<Event, DispatchError>(Event::TokenTransfer(class_id, token_id, *src, *dst))
                    &&& final(self)@ == registry
                },
                Err(e) => r == Err::<Event, DispatchError>(e),
            },
    {
        match self.tokens.get(&(class_id, token_id)) {
            Some(token) => {
                if token.owner != *src {
                    return Err(DispatchError::Nft(Error::NoPermission));
                }
            },
            None => {
                return Err(DispatchError::Nft(Error::TokenNotFound));
            },
        }
        match self.tokens.remove(&(class_id, token_id)) {
            Some(token) => {
                self.tokens.insert((class_id, token_id), TokenInfo { owner: *dst, ..token });
            },
            None => {},
        }
        Ok(Event::TokenTransfer(class_id, token_id, *src, *dst))
    }

    /// Destroys the token of `owner`.
    pub fn burn(&mut self, owner: &AccountId, class_id: ClassId, token_id: TokenId) -> (r: Result<
        Event,
        DispatchError,
    >)
        ensures
            final(self).config == old(self).config,
            r is Err ==> *final(self) == *old(self),
            match old(self)@.burn(*owner, class_id, token_id) {
                Ok(registry) => {
                    &&& r == Ok::<Event, DispatchError>(Event::TokenBurned(class_id, token_id, *owner))
                    &&& final(self)@ == registry
                },
                Err(e) => r == Err::<Event, DispatchError>(e),
            },
    {
        match self.tokens.get(&(class_id, token_id)) {
            Some(token) => {
                if token.owner != *owner {
                    return Err(DispatchError::Nft(Error::NoPermission));
                }
            },
            None => {
                return Err(DispatchError::Nft(Error::TokenNotFound));
            },
        }
        let issuance: TokenId = match self.classes.get(&class_id) {
            Some(class) => match class.total_issuance.checked_sub(1) {
                Some(n) => n,
                None => {
                    return Err(DispatchError::Arithmetic(ArithmeticError::Underflow));
                },
            },
            None => {
                return Err(DispatchError::Nft(Error::ClassNotFound));
            },
        };
        self.tokens.remove(&(class_id, token_id));
        match self.classes.remove(&class_id) {
            Some(class) => {
                self.classes.insert(class_id, ClassInfo { total_issuance: issuance, ..class });
            },
            None => {},
        }
        Ok(Event::TokenBurned(class_id, token_id, *owner))
    }

    /// Destroys the class of `owner`, which must have no tokens left.
    pub fn do_destroy_class(&mut self, owner: &AccountId, class_id: ClassId) -> (r: Result<Event, DispatchError>)
        ensures
            final(self).config == old(self).config,
            r is Err ==> *final(self) == *old(self),
            match old(self)@.destroy_class(*owner, class_id) {
                Ok(registry) => {
                    &&& r == Ok::<Event, DispatchError>(Event::ClassDestroyed(class_id, *owner))
                    &&& final(self)@ == registry
                },
                Err(e) => r == Err::<Event, DispatchError>(e),
            },
    {
        match self.classes.get(&class_id) {
            Some(class) => {
                if *owner != class.owner {
                    return Err(DispatchError::Nft(Error::NoPermission));
                }
                if class.total_issuance != 0 {
                    return Err(DispatchError::Nft(Error::CannotDestroyClass));
                }
            },
            None => {
                return Err(DispatchError::Nft(Error::ClassNotFound));
            },
        }
        self.classes.remove(&class_id);
        self.next_token_id.remove(&class_id);
        Ok(Event::ClassDestroyed(class_id, *owner))
    }

    /// Whether `owner` owns the token.
    pub fn is_owner_of(&self, owner: &AccountId, class_id: ClassId, token_id: TokenId) -> (b: bool)
        ensures
            b == (self@.owners().contains_key((class_id, token_id)) && self@.owners()[(class_id, token_id)]
                == *owner),
    {
        match self.tokens.get(&(class_id, token_id)) {
            Some(token) => token.owner == *owner,
            None => false,
        }
    }
}

/// The classes and tokens that a registry starts with.
pub struct GenesisConfig<ClassData, TokenData> {
    pub classes: Vec<GenesisClassData<ClassData, TokenData>>,
}

impl<ClassData, TokenData> Default for GenesisConfig<ClassData, TokenData> {
    fn default() -> (genesis: Self)
        ensures
            genesis.classes@ == Seq::<GenesisClassData<ClassData, TokenData>>::empty(),
    {
        GenesisConfig { classes: Vec::new() }
    }
}

impl<ClassData, TokenData> GenesisConfig<ClassData, TokenData> {
    /// Creates each class in order on an empty registry, each followed by its
    /// tokens, and stops at the first step that cannot be taken.
    pub fn try_build(self, config: Config) -> (r: Result<Pallet<ClassData, TokenData>, DispatchError>)
        ensures
            match Registry::<ClassData, TokenData>::empty().create_all(config, self.classes@) {
                Ok(registry) => r is Ok && r->Ok_0@ == registry && r->Ok_0.config == config,
                Err(e) => r is Err && r->Err_0 == e,
            },
    {
        let mut pallet = Pallet::new(config);
        let ghost classes = self.classes@;
        for class in it: self.classes
            invariant
                it.seq() == classes,
                pallet.config == config,
                Registry::<ClassData, TokenData>::empty().create_all(config, classes.take(it.index() as int))
                    == Ok::<Registry<ClassData, TokenData>, DispatchError>(pallet@),
        {
            let ghost done = it.index() as int;
            proof {
                assert(classes.take(done + 1).drop_last() =~= classes.take(done));
            }
            let (owner, metadata, data, tokens) = class;
            let class_id = match pallet.do_create_class(&owner, metadata, data) {
                Ok((class_id, _)) => class_id,
                Err(e) => {
                    proof {
                        lemma_create_all_fails_for_good(
                            Registry::<ClassData, TokenData>::empty(),
                            config,
                            classes,
                            done + 1,
                        );
                    }
                    return Err(e);
                },
            };
            let ghost created = pallet@;
            let ghost minting = tokens@;
            for token in inner: tokens
                invariant
                    inner.seq() == minting,
                    pallet.config == config,
                    0 <= done < classes.len(),
                    classes == self.classes@,
                    Registry::<ClassData, TokenData>::empty().create_all(config, classes.take(done + 1))
                        == created.mint_all(config, class_id, minting),
                    created.mint_all(config, class_id, minting.take(inner.index() as int)) == Ok::<
                        Registry<ClassData, TokenData>,
                        DispatchError,
                    >(pallet@),
            {
                let ghost minted = inner.index() as int;
                proof {
                    assert(minting.take(minted + 1).drop_last() =~= minting.take(minted));
                }
                let (token_owner, token_metadata, token_data) = token;
                match pallet.mint(&token_owner, class_id, token_metadata, token_data) {
                    Ok(_) => {},
                    Err(e) => {
                        proof {
                            lemma_mint_all_fails_for_good(created, config, class_id, minting, minted + 1);
                            lemma_create_all_fails_for_good(
                                Registry::<ClassData, TokenData>::empty(),
                                config,
                                classes,
                                done + 1,
                            );
                        }
                        return Err(e);
                    },
                }
            }
            proof {
                assert(minting.take(minting.len() as int) =~= minting);
            }
        }
        proof {
            assert(classes.take(classes.len() as int) =~= classes);
        }
        Ok(pallet)
    }

    /// The registry that holds exactly the classes and tokens of this configuration.
    pub fn build(self, config: Config) -> (pallet: Pallet<ClassData, TokenData>)
        requires
            Registry::<ClassData, TokenData>::empty().create_all(config, self.classes@) is Ok,
        ensures
            pallet.config == config,
            Registry::<ClassData, TokenData>::empty().create_all(config, self.classes@) == Ok::<
                Registry<ClassData, TokenData>,
                DispatchError,
            >(pallet@),
    {
        match self.try_build(config) {
            Ok(pallet) => pallet,
            Err(_) => unreached(),
        }
    }
}

/// Once minting a prefix of `tokens` has failed, minting all of them fails for the same reason.
proof fn lemma_mint_all_fails_for_good<ClassData, TokenData>(
    registry: Registry<ClassData, TokenData>,
    config: Config,
    class_id: ClassId,
    tokens: Seq<GenesisTokenData<TokenData>>,
    n: int,
)
    requires
        0 <= n <= tokens.len(),
        registry.mint_all(config, class_id, tokens.take(n)) is Err,
    ensures
        registry.mint_all(config, class_id, tokens) == registry.mint_all(config, class_id, tokens.take(n)),
    decreases tokens.len(),
{
    if n == tokens.len() {
        assert(tokens.take(n) =~= tokens);
    } else {
        assert(tokens.drop_last().take(n) =~= tokens.take(n));
        lemma_mint_all_fails_for_good(registry, config, class_id, tokens.drop_last(), n);
    }
}

/// Once creating a prefix of `classes` has failed, creating all of them fails for the same reason.
proof fn lemma_create_all_fails_for_good<ClassData, TokenData>(
    registry: Registry<ClassData, TokenData>,
    config: Config,
    classes: Seq<GenesisClassData<ClassData, TokenData>>,
    n: int,
)
    requires
        0 <= n <= classes.len(),
        registry.create_all(config, classes.take(n)) is Err,
    ensures
        registry.create_all(config, classes) == registry.create_all(config, classes.take(n)),
    decreases classes.len(),
{
    if n == classes.len() {
        assert(classes.take(n) =~= classes);
    } else {
        assert(classes.drop_last().take(n) =~= classes.take(n));
        lemma_create_all_fails_for_good(registry, config, classes.drop_last(), n);
    }
}

impl<ClassData, TokenData> NFTForMarketplace for Pallet<ClassData, TokenData> {
    open spec fn owners(&self) -> Map<(ClassId, TokenId), AccountId> {
        self@.owners()
    }

    fn transfer(&mut self, src: &AccountId, dst: &AccountId, class_id: ClassId, token_id: TokenId) -> (r:
        DispatchResult) {
        match Pallet::transfer(self, src, dst, class_id, token_id) {
            Ok(_) => Ok(()),
            Err(e) => Err(e),
        }
    }

    fn is_owner_of(&self, owner: &AccountId, class_id: ClassId, token_id: TokenId) -> (b: bool) {
        Pallet::is_owner_of(self, owner, class_id, token_id)
    }
}

} // verus!
