//! Shapes shared by the handlers: the envelope of a single payload, the
//! paging request and the page of a list.

use crate::json::{array_text, decimal, write_array, write_decimal, ToJson};
use vstd::prelude::*;
use vstd::string::StringExecFns;

verus! {

/// Envelope of a single payload, which it holds under `data`.
#[derive(Clone, Debug, PartialEq, Eq)]
pub struct Data<T> {
    pub data: T,
}

impl<T: View> View for Data<T> {
    type V = Data<T::V>;

    open spec fn view(&self) -> Data<T::V> {
        Data { data: self.data@ }
    }
}

impl<T: ToJson> ToJson for Data<T> {
    open spec fn json_of(v: Data<T::V>) -> Seq<char> {
        "{\"data\":"@ + T::json_of(v.data) + "}"@
    }

    fn write_json(&self, out: &mut String) {
        out.append("{\"data\":");
        self.data.write_json(out);
        out.append("}");
    }
}

/// The page and the page size that a request for a list asks for. Neither is
/// bounded: a `limit` of zero is a request like any other.
#[derive(Clone, Copy, Debug, PartialEq, Eq, Structural)]
pub struct Pageable {
    pub page: u32,
    pub limit: u32,
}

/// One page of a list: the `page` and `limit` that were asked for, an upper
/// bound `max` on the number of items in the whole list, and the items.
#[derive(Clone, Debug, PartialEq, Eq)]
pub struct PaginatedList<T> {
    pub page: u32,
    pub limit: u32,
    pub max: u32,
    pub data: Vec<T>,
}

/// What a `PaginatedList` stands for.
pub struct PageView<V> {
    pub page: nat,
    pub limit: nat,
    pub max: nat,
    pub data: Seq<V>,
}

impl<V> PageView<V> {
    /// The page holds no more items than were asked for.
    pub open spec fn within_limit(self) -> bool {
        self.data.len() <= self.limit
    }
}

impl<T: View> View for PaginatedList<T> {
    type V = PageView<T::V>;

    open spec fn view(&self) -> PageView<T::V> {
        PageView {
            page: self.page as nat,
            limit: self.limit as nat,
            max: self.max as nat,
            data: self.data@.map_values(|item: T| item@),
        }
    }
}

impl<T: ToJson> ToJson for PaginatedList<T> {
    open spec fn json_of(v: PageView<T::V>) -> Seq<char> {
        "{\"page\":"@ + decimal(v.page) + ",\"limit\":"@ + decimal(v.limit) + ",\"max\":"@
            + decimal(v.max) + ",\"data\":"@ + array_text(
            v.data.map_values(|item: T::V| T::json_of(item)),
        ) + "}"@
    }

    fn write_json(&self, out: &mut String) {
        out.append("{\"page\":");
        write_decimal(self.page as u64, out);
        out.append(",\"limit\":");
        write_decimal(self.limit as u64, out);
        out.append(",\"max\":");
        write_decimal(self.max as u64, out);
        out.append(",\"data\":");
        write_array(&self.data, out);
        out.append("}");
        assert(self.data@.map_values(|item: T| T::json_of(item@)) == self@.data.map_values(
            |item: T::V| T::json_of(item),
        ));
    }
}

} // verus!
