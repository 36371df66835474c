use vstd::prelude::*;
use vstd::string::*;

use crate::json::{json_accepts, parse_value, pretty_text};

verus! {

pub const WINDOW_TITLE: &'static str = "Connect Sqlite Database";

/// Where the customer list is fetched from.
pub const CUSTOMERS_URL: &'static str = "http://localhost:3000/customers";

pub const PRETTY_PRINT_WARNING: &'static str = "Warning: Could not pretty-print JSON.";

pub const NOT_JSON_WARNING: &'static str = "Warning: Fetched data is not valid JSON.";

/// Put before the decoder's own words when the records do not fit.
pub const CUSTOMER_LIST_WARNING: &'static str = "Warning: Could not parse JSON into Customer list: ";

/// One record of the customer list.
pub struct Customer {
    pub customer_name: String,
    pub address: String,
    pub customer_id: i64,
}

impl Customer {
    pub fn new(customer_name: String, address: String, customer_id: i64) -> (r: Customer)
        ensures
            r.customer_name@ == customer_name@,
            r.address@ == address@,
            r.customer_id == customer_id,
    {
        Customer { customer_name, address, customer_id }
    }
}

/// The text of an optional string.
pub open spec fn opt_text(o: Option<String>) -> Option<Seq<char>> {
    match o {
        Some(s) => Some(s@),
        None => None,
    }
}

/// The data panel: it fetches the customer list, keeps the text it got,
/// the records decoded from it and the last error or warning.
pub struct SqliteData {
    customer_data_json: String,
    error_message: Option<String>,
    parsed_customers: Vec<Customer>,
    selected_customer_id_for_label: Option<i64>,
    data_fetched_on_open: bool,
    fetch_pending: bool,
}

impl Default for SqliteData {
    fn default() -> (r: SqliteData)
        ensures
            r.is_fresh(),
    {
        SqliteData {
            customer_data_json: String::new(),
            error_message: None,
            parsed_customers: Vec::new(),
            selected_customer_id_for_label: None,
            data_fetched_on_open: false,
            fetch_pending: false,
        }
    }
}

impl SqliteData {
    pub closed spec fn json_text(&self) -> Seq<char> {
        self.customer_data_json@
    }

    pub closed spec fn error(&self) -> Option<Seq<char>> {
        opt_text(self.error_message)
    }

    pub closed spec fn customers(&self) -> Seq<Customer> {
        self.parsed_customers@
    }

    pub closed spec fn selected_id(&self) -> Option<i64> {
        self.selected_customer_id_for_label
    }

    pub closed spec fn fetched(&self) -> bool {
        self.data_fetched_on_open
    }

    /// Whether a fetch started in the background has not come back yet.
    pub closed spec fn pending(&self) -> bool {
        self.fetch_pending
    }

    pub open spec fn is_fresh(&self) -> bool {
        &&& self.json_text().len() == 0
        &&& self.error() is None
        &&& self.customers().len() == 0
        &&& self.selected_id() is None
        &&& !self.fetched()
        &&& !self.pending()
    }

    pub fn title(&self) -> (r: String)
        ensures
            r@ == WINDOW_TITLE@,
    {
        String::from_str(WINDOW_TITLE)
    }

    /// Whether drawing the panel should start a fetch by itself: nothing
    /// has been fetched yet, no records are held and none is under way.
    pub fn should_fetch_on_open(&self) -> (r: bool)
        ensures
            r == (!self.fetched() && self.customers().len() == 0 && !self.pending()),
    {
        !self.data_fetched_on_open && self.parsed_customers.len() == 0 && !self.fetch_pending
    }

    /// Keeps the pretty-printed text of a fetched document, or the raw text
    /// with a warning where pretty-printing gave nothing.
    pub fn record_pretty_text(&mut self, raw_json: String, pretty: Option<String>)
        ensures
            final(self).json_text() == (match pretty {
                Some(p) => p@,
                None => raw_json@,
            }),
            final(self).error() == (match pretty {
                Some(_) => old(self).error(),
                None => Some(PRETTY_PRINT_WARNING@),
            }),
            final(self).customers() == old(self).customers(),
            final(self).selected_id() == old(self).selected_id(),
            final(self).fetched() == old(self).fetched(),
            final(self).pending() == old(self).pending(),
    {
        match pretty {
            Some(p) => {
                self.customer_data_json = p;
            },
            None => {
                self.customer_data_json = raw_json;
                self.error_message = Some(String::from_str(PRETTY_PRINT_WARNING));
            },
        }
    }

    /// Takes the outcome of decoding the document as a list of records:
    /// the records, or the decoder's message, which clears the list.
    pub fn apply_customer_list(&mut self, decoded: Result<Vec<Customer>, String>)
        ensures
            final(self).customers() == (match decoded {
                Ok(c) => c@,
                Err(_) => Seq::<Customer>::empty(),
            }),
            final(self).error() == (match decoded {
                Ok(_) => old(self).error(),
                Err(e) => Some(CUSTOMER_LIST_WARNING@ + e@),
            }),
            final(self).json_text() == old(self).json_text(),
            final(self).selected_id() == old(self).selected_id(),
            final(self).fetched() == old(self).fetched(),
            final(self).pending() == old(self).pending(),
    {
        match decoded {
            Ok(customers) => {
                self.parsed_customers = customers;
            },
            Err(detail) => {
                self.parsed_customers.clear();
                let mut message = String::from_str(CUSTOMER_LIST_WARNING);
                message.append(detail.as_str());
                self.error_message = Some(message);
            },
        }
    }

    /// Takes the outcome of a fetch. A transport error is kept as the
    /// message; a text that is no JSON is kept as it is, with a warning; a
    /// JSON document is kept pretty-printed and handed back, so that the
    /// caller can decode its records and pass them to `apply_customer_list`.
    pub fn process_fetched_json(&mut self, raw_json_result: Result<String, String>) -> (r: Option<
        serde_json::Value,
    >)
        ensures
            final(self).selected_id() == old(self).selected_id(),
            final(self).fetched() == old(self).fetched(),
            final(self).pending() == old(self).pending(),
            match raw_json_result {
                Err(e) => {
                    &&& r is None
                    &&& final(self).error() == Some(e@)
                    &&& final(self).json_text() == old(self).json_text()
                    &&& final(self).customers() == old(self).customers()
                },
                Ok(raw) => if !json_accepts(raw@) {
                    &&& r is None
                    &&& final(self).error() == Some(NOT_JSON_WARNING@)
                    &&& final(self).json_text() == raw@
                    &&& final(self).customers().len() == 0
                } else {
                    &&& r is Some
                    &&& final(self).customers() == old(self).customers()
                    &&& final(self).error() == old(self).error()
                },
            },
    {
        match raw_json_result {
            Ok(raw_json) => {
                match parse_value(raw_json.as_str()) {
                    Some(parsed) => {
                        let pretty = pretty_text(&parsed);
                        self.record_pretty_text(raw_json, pretty);
                        Some(parsed)
                    },
                    None => {
                        self.customer_data_json = raw_json;
                        self.parsed_customers.clear();
                        self.error_message = Some(String::from_str(NOT_JSON_WARNING));
                        None
                    },
                }
            },
            Err(e) => {
                self.error_message = Some(e);
                None
            },
        }
    }

    /// Runs the panel's part of a fetch, given what the fetch returned: the
    /// message, the text and the records are cleared first, and the panel
    /// counts as fetched afterwards.
    pub fn trigger_fetch_data(&mut self, raw_json_result: Result<String, String>) -> (r: Option<
        serde_json::Value,
    >)
        ensures
            final(self).fetched(),
            final(self).selected_id() == old(self).selected_id(),
            final(self).pending() == old(self).pending(),
            match raw_json_result {
                Err(e) => {
                    &&& r is None
                    &&& final(self).error() == Some(e@)
                    &&& final(self).json_text().len() == 0
                    &&& final(self).customers().len() == 0
                },
                Ok(raw) => if !json_accepts(raw@) {
                    &&& r is None
                    &&& final(self).error() == Some(NOT_JSON_WARNING@)
                    &&& final(self).json_text() == raw@
                    &&& final(self).customers().len() == 0
                } else {
                    &&& r is Some
                    &&& final(self).customers().len() == 0
                    &&& final(self).error() is None
                },
            },
    {
        self.error_message = None;
        self.customer_data_json = String::new();
        self.parsed_customers.clear();
        let r = self.process_fetched_json(raw_json_result);
        self.data_fetched_on_open = true;
        r
    }

    /// Remembers the customer whose name was clicked.
    pub fn select_customer(&mut self, customer_id: i64)
        ensures
            final(self).selected_id() == Some(customer_id),
            final(self).json_text() == old(self).json_text(),
            final(self).error() == old(self).error(),
            final(self).customers() == old(self).customers(),
            final(self).fetched() == old(self).fetched(),
            final(self).pending() == old(self).pending(),
    {
        self.selected_customer_id_for_label = Some(customer_id);
    }

    /// Starts a fetch whose result comes back in a later cycle: the
    /// message, the text and the records are cleared, and the panel waits.
    pub fn begin_background_fetch(&mut self)
        ensures
            final(self).pending(),
            final(self).error() is None,
            final(self).json_text().len() == 0,
            final(self).customers().len() == 0,
            final(self).selected_id() == old(self).selected_id(),
            final(self).fetched() == old(self).fetched(),
    {
        self.error_message = None;
        self.customer_data_json = String::new();
        self.parsed_customers.clear();
        self.fetch_pending = true;
    }

    /// Takes the result of a background fetch once it is ready: it is
    /// processed as `process_fetched_json` does, the wait ends and the
    /// panel counts as fetched.
    pub fn complete_background_fetch(&mut self, raw_json_result: Result<String, String>) -> (r:
        Option<serde_json::Value>)
        ensures
            final(self).fetched(),
            !final(self).pending(),
            final(self).selected_id() == old(self).selected_id(),
            match raw_json_result {
                Err(e) => {
                    &&& r is None
                    &&& final(self).error() == Some(e@)
                    &&& final(self).json_text() == old(self).json_text()
                    &&& final(self).customers() == old(self).customers()
                },
                Ok(raw) => if !json_accepts(raw@) {
                    &&& r is None
                    &&& final(self).error() == Some(NOT_JSON_WARNING@)
                    &&& final(self).json_text() == raw@
                    &&& final(self).customers().len() == 0
                } else {
                    &&& r is Some
                    &&& final(self).customers() == old(self).customers()
                    &&& final(self).error() == old(self).error()
                },
            },
    {
        let r = self.process_fetched_json(raw_json_result);
        self.fetch_pending = false;
        self.data_fetched_on_open = true;
        r
    }

    pub fn is_fetch_pending(&self) -> (r: bool)
        ensures
            r == self.pending(),
    {
        self.fetch_pending
    }

    pub fn customer_data_json(&self) -> (r: &String)
        ensures
            r@ == self.json_text(),
    {
        &self.customer_data_json
    }

    pub fn error_message(&self) -> (r: &Option<String>)
        ensures
            opt_text(*r) == self.error(),
    {
        &self.error_message
    }

    pub fn parsed_customers(&self) -> (r: &Vec<Customer>)
        ensures
            r@ == self.customers(),
    {
        &self.parsed_customers
    }

    pub fn selected_customer_id(&self) -> (r: Option<i64>)
        ensures
            r == self.selected_id(),
    {
        self.selected_customer_id_for_label
    }

    pub fn data_fetched(&self) -> (r: bool)
        ensures
            r == self.fetched(),
    {
        self.data_fetched_on_open
    }
}

} // verus!
