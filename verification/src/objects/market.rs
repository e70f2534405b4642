//! The registry of order books by symbol, with the flag that tells
//! whether a snapshot of a symbol has been asked for and not yet delivered.

use crate::objects::orderbook::{BookView, OrderbookV1};
use crate::objects::symbol_table::SymbolTable;
use vstd::hash_map::StringHashMap;
use vstd::prelude::*;

verus! {

/// The books of a market and the flags of pending snapshots.
pub struct Market {
    name: String,
    books: SymbolTable<OrderbookV1>,
    status: StringHashMap<bool>,
}

/// The books of a table as mathematical values.
pub open spec fn book_views(books: Map<Seq<char>, OrderbookV1>) -> Map<Seq<char>, BookView> {
    books.map_values(|book: OrderbookV1| book@)
}

impl Market {
    /// The books by symbol.
    pub closed spec fn books(&self) -> Map<Seq<char>, BookView> {
        book_views(self.books.entries())
    }

    /// The pending flags by symbol, as far as one was ever set or cleared.
    pub closed spec fn flags(&self) -> Map<Seq<char>, bool> {
        self.status@
    }

    /// The name that the market was made with.
    pub closed spec fn spec_name(&self) -> Seq<char> {
        self.name@
    }

    pub fn new(name: &str) -> (r: Market)
        ensures
            r.spec_name() == name@,
            r.books() == Map::<Seq<char>, BookView>::empty(),
            r.flags() == Map::<Seq<char>, bool>::empty(),
    {
        let r = Market {
            name: name.to_owned(),
            books: SymbolTable::new(),
            status: StringHashMap::new(),
        };
        proof {
            assert(r.books() =~= Map::<Seq<char>, BookView>::empty());
        }
        r
    }

    /// The name that the market was made with.
    pub fn get_name(&self) -> (r: &str)
        ensures
            r@ == self.spec_name(),
    {
        self.name.as_str()
    }

    /// Whether the market holds a book for the symbol.
    pub fn contains(&self, symbol: &str) -> (r: bool)
        ensures
            r == self.books().contains_key(symbol@),
    {
        self.books.contains(symbol)
    }

    /// The book of the symbol, if the market holds one.
    pub fn get_book(&self, symbol: &str) -> (r: Option<&OrderbookV1>)
        ensures
            match r {
                Some(book) => self.books().contains_key(symbol@) && book@ == self.books()[symbol@],
                None => !self.books().contains_key(symbol@),
            },
    {
        self.books.get(symbol)
    }

    /// The book of the symbol for changing in place, if the market holds
    /// one. The market holds whatever the book is changed to.
    pub fn get_mut_book(&mut self, symbol: &str) -> (r: Option<&mut OrderbookV1>)
        ensures
            match r {
                Some(book) => {
                    &&& old(self).books().contains_key(symbol@)
                    &&& (*book)@ == old(self).books()[symbol@]
                    &&& final(self).books() == old(self).books().insert(symbol@, (*final(book))@)
                    &&& final(self).flags() == old(self).flags()
                    &&& final(self).spec_name() == old(self).spec_name()
                },
                None => !old(self).books().contains_key(symbol@) && *final(self) == *old(self),
            },
    {
        proof {
            assert forall|book: OrderbookV1| #[trigger]
                book_views(self.books.entries().insert(symbol@, book)) == book_views(
                    self.books.entries(),
                ).insert(symbol@, book@) by {
                assert(book_views(self.books.entries().insert(symbol@, book)) =~= book_views(
                    self.books.entries(),
                ).insert(symbol@, book@));
            }
        }
        self.books.get_mut(symbol)
    }

    /// Installs the book under its symbol, in place of any book that was
    /// there.
    pub fn set_book(&mut self, new_book: OrderbookV1)
        ensures
            final(self).books() == old(self).books().insert(new_book.symbol@, new_book@),
            final(self).flags() == old(self).flags(),
            final(self).spec_name() == old(self).spec_name(),
    {
        let key = new_book.symbol.clone();
        proof {
            assert(book_views(self.books.entries().insert(key@, new_book)) =~= book_views(
                self.books.entries(),
            ).insert(key@, new_book@));
        }
        self.books.insert(key.as_str(), new_book);
    }

    /// Drops the book of the symbol, if the market holds one.
    pub fn clear_book(&mut self, symbol: &str)
        ensures
            final(self).books() == old(self).books().remove(symbol@),
            final(self).flags() == old(self).flags(),
            final(self).spec_name() == old(self).spec_name(),
    {
        proof {
            assert(book_views(self.books.entries().remove(symbol@)) =~= book_views(
                self.books.entries(),
            ).remove(symbol@));
        }
        self.books.remove(symbol);
    }

    /// Whether a snapshot of the symbol has been asked for and not yet
    /// delivered.
    pub fn is_pending(&self, symbol: &str) -> (r: bool)
        ensures
            r == (self.flags().contains_key(symbol@) && self.flags()[symbol@]),
    {
        match self.status.get(symbol) {
            Some(pending) => *pending,
            None => false,
        }
    }

    /// Notes that a snapshot of the symbol has been asked for.
    pub fn set_pending(&mut self, symbol: &str)
        ensures
            final(self).flags() == old(self).flags().insert(symbol@, true),
            final(self).books() == old(self).books(),
            final(self).spec_name() == old(self).spec_name(),
    {
        self.status.insert(symbol.to_owned(), true);
    }

    /// Notes that the snapshot of the symbol has arrived.
    pub fn clear_pending(&mut self, symbol: &str)
        ensures
            final(self).flags() == old(self).flags().insert(symbol@, false),
            final(self).books() == old(self).books(),
            final(self).spec_name() == old(self).spec_name(),
    {
        self.status.insert(symbol.to_owned(), false);
    }
}

} // verus!
