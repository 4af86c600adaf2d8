//! Subscriptions to the change notifications of an rxqlite node.
//!
//! A client listens either to all changes or to the changes of chosen tables,
//! over one connection to the node's notification port. Connecting and
//! sending requests are asynchronous and stay with the caller; the
//! `NetStreamManager` decides, for each operation, what to do next (nothing,
//! connect, or send a request) and records the outcome.
//!
//! Every operation keeps the manager well formed: the connection is open
//! exactly while something is listened to.
use vstd::prelude::*;
use rxqlite_lite_common::NetStream;
use vstd::std_specs::iter::IteratorSpec;

verus! {

/// A request to the node's notification service.
pub enum NotificationCommand {
    /// Send every change.
    Register,
    /// Stop sending every change.
    Unregister,
    /// Send the changes of the named table.
    RegisterForTable(String),
    /// Stop sending the changes of the named table.
    UnregisterForTable(String),
}

/// A notification request, with table names as character sequences.
pub enum CommandView {
    Register,
    Unregister,
    RegisterForTable(Seq<char>),
    UnregisterForTable(Seq<char>),
}

impl View for NotificationCommand {
    type V = CommandView;

    open spec fn view(&self) -> CommandView {
        match self {
            NotificationCommand::Register => CommandView::Register,
            NotificationCommand::Unregister => CommandView::Unregister,
            NotificationCommand::RegisterForTable(t) => CommandView::RegisterForTable(t@),
            NotificationCommand::UnregisterForTable(t) => CommandView::UnregisterForTable(t@),
        }
    }
}

/// The first move of a notification operation.
pub enum ListenStep {
    /// Nothing to do: the operation succeeds at once.
    Done,
    /// Open a connection to the notification port: TLS where the value is
    /// `Some`, accepting invalid certificates where it is `Some(true)`.
    Connect(Option<bool>),
    /// Send the request over the open connection.
    Send(NotificationCommand),
}

/// The first move of a notification operation, with table names as
/// character sequences.
pub enum StepView {
    Done,
    Connect(Option<bool>),
    Send(CommandView),
}

impl View for ListenStep {
    type V = StepView;

    open spec fn view(&self) -> StepView {
        match self {
            ListenStep::Done => StepView::Done,
            ListenStep::Connect(m) => StepView::Connect(*m),
            ListenStep::Send(c) => StepView::Send(c@),
        }
    }
}

/// The state of a notification manager.
pub struct ListenView {
    /// Whether every change is listened to.
    pub any: bool,
    /// The tables whose changes are listened to.
    pub tables: Set<Seq<char>>,
    /// Whether the connection to the notification port is open.
    pub open: bool,
    /// Whether the connection uses TLS.
    pub use_tls: bool,
    /// Whether a TLS connection accepts invalid certificates.
    pub accept_invalid_certificates: bool,
}

/// Whether anything is listened to.
pub open spec fn listening(v: ListenView) -> bool {
    v.any || v.tables != Set::<Seq<char>>::empty()
}

/// The connection is open exactly while something is listened to.
pub open spec fn well_formed(v: ListenView) -> bool {
    v.open == listening(v)
}

/// The state of a manager that was just made.
pub open spec fn fresh(use_tls: bool, accept_invalid_certificates: bool) -> ListenView {
    ListenView { any: false, tables: Set::empty(), open: false, use_tls, accept_invalid_certificates }
}

/// The state after everything was dropped: nothing listened to, connection
/// closed.
pub open spec fn cleared(v: ListenView) -> ListenView {
    ListenView { any: false, tables: Set::empty(), open: false, ..v }
}

/// The state after a connection was opened.
pub open spec fn attached(v: ListenView) -> ListenView {
    ListenView { open: true, ..v }
}

/// The state after a request that ends a subscription was sent: the
/// connection is closed where nothing is left to listen to.
pub open spec fn close_if_idle(v: ListenView) -> ListenView {
    if listening(v) { v } else { ListenView { open: false, ..v } }
}

/// How the connection is opened: TLS where it is used, with the acceptance of
/// invalid certificates.
pub open spec fn connect_mode(v: ListenView) -> Option<bool> {
    if v.use_tls { Some(v.accept_invalid_certificates) } else { None }
}

/// The first move of `start_listening_for_notifications`.
pub open spec fn start_all_plan(v: ListenView) -> StepView {
    if v.any {
        StepView::Done
    } else if !v.open {
        StepView::Connect(connect_mode(v))
    } else {
        StepView::Send(CommandView::Register)
    }
}

/// The state after `start_listening_for_notifications` sent its request
/// (`sent`) or failed to.
pub open spec fn start_all_sent(v: ListenView, sent: bool) -> ListenView {
    if sent { ListenView { any: true, ..v } } else { cleared(v) }
}

/// The first move of `stop_listening_for_notifications`.
pub open spec fn stop_all_plan(v: ListenView) -> StepView {
    if !v.open { StepView::Done } else { StepView::Send(CommandView::Unregister) }
}

/// The state after `stop_listening_for_notifications` sent its request
/// (`sent`) or failed to.
pub open spec fn stop_all_sent(v: ListenView, sent: bool) -> ListenView {
    if sent { close_if_idle(ListenView { any: false, ..v }) } else { cleared(v) }
}

/// The first move of `start_listening_for_table_notifications`.
pub open spec fn start_table_plan(v: ListenView, table: Seq<char>) -> StepView {
    if v.tables.contains(table) {
        StepView::Done
    } else if !v.open {
        StepView::Connect(connect_mode(v))
    } else {
        StepView::Send(CommandView::RegisterForTable(table))
    }
}

/// The state after `start_listening_for_table_notifications` sent its
/// request (`sent`) or failed to.
pub open spec fn start_table_sent(v: ListenView, table: Seq<char>, sent: bool) -> ListenView {
    if sent { ListenView { tables: v.tables.insert(table), ..v } } else { cleared(v) }
}

/// The first move of `stop_listening_for_table_notifications`.
pub open spec fn stop_table_plan(v: ListenView, table: Seq<char>) -> StepView {
    if !v.tables.contains(table) {
        StepView::Done
    } else {
        StepView::Send(CommandView::UnregisterForTable(table))
    }
}

/// The state after `stop_listening_for_table_notifications` sent its request
/// (`sent`) or failed to.
pub open spec fn stop_table_sent(v: ListenView, table: Seq<char>, sent: bool) -> ListenView {
    if sent { close_if_idle(ListenView { tables: v.tables.remove(table), ..v }) } else { cleared(v) }
}

/// The whole of `start_listening_for_notifications`: the final state and
/// whether it succeeds, given whether a needed connection could be opened and
/// whether the request could be sent.
pub open spec fn start_all_effect(v: ListenView, connected: bool, sent: bool) -> (ListenView, bool) {
    match start_all_plan(v) {
        StepView::Done => (v, true),
        StepView::Connect(_) => if connected { (start_all_sent(attached(v), sent), sent) } else { (v, false) },
        StepView::Send(_) => (start_all_sent(v, sent), sent),
    }
}

/// The whole of `stop_listening_for_notifications`.
pub open spec fn stop_all_effect(v: ListenView, sent: bool) -> (ListenView, bool) {
    match stop_all_plan(v) {
        StepView::Send(_) => (stop_all_sent(v, sent), sent),
        _ => (v, true),
    }
}

/// The whole of `start_listening_for_table_notifications`.
pub open spec fn start_table_effect(v: ListenView, table: Seq<char>, connected: bool, sent: bool) -> (ListenView, bool) {
    match start_table_plan(v, table) {
        StepView::Done => (v, true),
        StepView::Connect(_) => if connected {
            (start_table_sent(attached(v), table, sent), sent)
        } else {
            (v, false)
        },
        StepView::Send(_) => (start_table_sent(v, table, sent), sent),
    }
}

/// The whole of `stop_listening_for_table_notifications`.
pub open spec fn stop_table_effect(v: ListenView, table: Seq<char>, sent: bool) -> (ListenView, bool) {
    match stop_table_plan(v, table) {
        StepView::Send(_) => (stop_table_sent(v, table, sent), sent),
        _ => (v, true),
    }
}

/// The names of the tables in `s`.
pub open spec fn table_names(s: Seq<String>) -> Set<Seq<char>> {
    Set::new(|t: Seq<char>| exists|i: int| 0 <= i < s.len() && #[trigger] s[i]@ == t)
}

/// The order of table names: lexicographic by character code points, a
/// proper prefix coming first. It is the order of `String`'s `Ord`, which
/// compares the UTF-8 bytes, and UTF-8 keeps the order of code points.
pub open spec fn name_lt(a: Seq<char>, b: Seq<char>) -> bool
    decreases a.len(),
{
    if a.len() == 0 {
        b.len() > 0
    } else if b.len() == 0 {
        false
    } else if a[0] != b[0] {
        (a[0] as int) < (b[0] as int)
    } else {
        name_lt(a.drop_first(), b.drop_first())
    }
}

/// The names in `s` are in strictly increasing order, so none occurs twice.
pub open spec fn sorted_names(s: Seq<String>) -> bool {
    forall|i: int, j: int| 0 <= i < j < s.len() ==> name_lt(#[trigger] s[i]@, #[trigger] s[j]@)
}

/// No name is before itself, and no two names are each before the other.
pub proof fn name_lt_strict(a: Seq<char>, b: Seq<char>)
    ensures
        !name_lt(a, a),
        name_lt(a, b) ==> !name_lt(b, a),
    decreases a.len(),
{
    if a.len() > 0 && b.len() > 0 {
        name_lt_strict(a.drop_first(), b.drop_first());
    }
    if a.len() > 0 {
        name_lt_strict(a.drop_first(), a.drop_first());
    }
}

/// Of two different names, one is before the other.
pub proof fn name_lt_total(a: Seq<char>, b: Seq<char>)
    ensures
        a != b ==> name_lt(a, b) || name_lt(b, a),
    decreases a.len(),
{
    if a.len() == 0 && b.len() == 0 {
        assert(a =~= b);
    } else if a.len() > 0 && b.len() > 0 && a[0] == b[0] {
        name_lt_total(a.drop_first(), b.drop_first());
        if a.drop_first() == b.drop_first() {
            assert(a =~= seq![a[0]] + a.drop_first());
            assert(b =~= seq![b[0]] + b.drop_first());
        }
    } else if a.len() > 0 && b.len() > 0 {
        assert((a[0] as int) != (b[0] as int));
    }
}

/// The order of names is transitive.
pub proof fn name_lt_transitive(a: Seq<char>, b: Seq<char>, c: Seq<char>)
    requires
        name_lt(a, b),
        name_lt(b, c),
    ensures
        name_lt(a, c),
    decreases a.len(),
{
    if a.len() > 0 && a[0] == b[0] && b[0] == c[0] {
        name_lt_transitive(a.drop_first(), b.drop_first(), c.drop_first());
    }
}

/// Sorted names are distinct.
pub proof fn sorted_names_are_distinct(s: Seq<String>)
    requires
        sorted_names(s),
    ensures
        forall|i: int, j: int| 0 <= i < s.len() && 0 <= j < s.len() && i != j ==> s[i]@ != s[j]@,
{
    assert forall|i: int, j: int| 0 <= i < s.len() && 0 <= j < s.len() && i != j implies s[i]@ != s[j]@ by {
        if i < j {
            assert(name_lt(s[i]@, s[j]@));
        } else {
            assert(name_lt(s[j]@, s[i]@));
        }
        name_lt_strict(s[i]@, s[j]@);
        name_lt_strict(s[j]@, s[i]@);
    }
}

proof fn lemma_names_empty(s: Seq<String>)
    ensures
        s.len() == 0 <==> table_names(s) == Set::<Seq<char>>::empty(),
{
    if s.len() == 0 {
        assert(table_names(s) =~= Set::<Seq<char>>::empty());
    } else {
        assert(table_names(s).contains(s[0]@));
    }
}

proof fn lemma_names_insert(s: Seq<String>, k: int, t: String)
    requires
        0 <= k <= s.len(),
    ensures
        table_names(s.insert(k, t)) == table_names(s).insert(t@),
        sorted_names(s) && (forall|i: int| 0 <= i < k ==> name_lt(#[trigger] s[i]@, t@))
            && (k < s.len() ==> name_lt(t@, s[k]@)) ==> sorted_names(s.insert(k, t)),
{
    let p = s.insert(k, t);
    assert forall|x: Seq<char>| table_names(p).contains(x) <==> table_names(s).insert(t@).contains(x) by {
        if table_names(p).contains(x) {
            let i = choose|i: int| 0 <= i < p.len() && #[trigger] p[i]@ == x;
            if i < k {
                assert(s[i]@ == x);
            } else if i > k {
                assert(s[i - 1]@ == x);
            }
        }
        if table_names(s).contains(x) {
            let i = choose|i: int| 0 <= i < s.len() && #[trigger] s[i]@ == x;
            if i < k {
                assert(p[i]@ == x);
            } else {
                assert(p[i + 1]@ == x);
            }
        }
        if x == t@ {
            assert(p[k]@ == x);
        }
    }
    assert(table_names(p) =~= table_names(s).insert(t@));
    if sorted_names(s) && (forall|i: int| 0 <= i < k ==> name_lt(#[trigger] s[i]@, t@))
        && (k < s.len() ==> name_lt(t@, s[k]@)) {
        assert forall|i: int, j: int| 0 <= i < j < p.len() implies name_lt(#[trigger] p[i]@, #[trigger] p[j]@) by {
            if j < k {
                assert(name_lt(s[i]@, s[j]@));
            } else if j == k {
                assert(name_lt(s[i]@, t@));
            } else if i < k {
                assert(name_lt(s[i]@, t@));
                assert(name_lt(t@, s[k]@));
                if j - 1 > k {
                    assert(name_lt(s[k]@, s[j - 1]@));
                    name_lt_transitive(t@, s[k]@, s[j - 1]@);
                }
                name_lt_transitive(s[i]@, t@, s[j - 1]@);
            } else if i == k {
                assert(name_lt(t@, s[k]@));
                if j - 1 > k {
                    assert(name_lt(s[k]@, s[j - 1]@));
                    name_lt_transitive(t@, s[k]@, s[j - 1]@);
                }
            } else {
                assert(name_lt(s[i - 1]@, s[j - 1]@));
            }
        }
    }
}

proof fn lemma_names_remove(s: Seq<String>, k: int)
    requires
        0 <= k < s.len(),
    ensures
        table_names(s.remove(k)).remove(s[k]@) == table_names(s).remove(s[k]@),
        sorted_names(s) ==> sorted_names(s.remove(k)),
{
    let r = s.remove(k);
    assert forall|x: Seq<char>| table_names(r).remove(s[k]@).contains(x) <==> table_names(s).remove(s[k]@).contains(x) by {
        if table_names(r).remove(s[k]@).contains(x) {
            let i = choose|i: int| 0 <= i < r.len() && #[trigger] r[i]@ == x;
            if i < k {
                assert(s[i]@ == x);
            } else {
                assert(s[i + 1]@ == x);
            }
        }
        if table_names(s).remove(s[k]@).contains(x) {
            let i = choose|i: int| 0 <= i < s.len() && #[trigger] s[i]@ == x;
            if i < k {
                assert(r[i]@ == x);
            } else {
                assert(i != k);
                assert(r[i - 1]@ == x);
            }
        }
    }
    assert(table_names(r).remove(s[k]@) =~= table_names(s).remove(s[k]@));
    if sorted_names(s) {
        assert forall|i: int, j: int| 0 <= i < j < r.len() implies name_lt(#[trigger] r[i]@, #[trigger] r[j]@) by {
            let si = if i < k { i } else { i + 1 };
            let sj = if j < k { j } else { j + 1 };
            assert(r[i]@ == s[si]@);
            assert(r[j]@ == s[sj]@);
            assert(name_lt(s[si]@, s[sj]@));
        }
    }
}

/// Whether the name `a` comes before the name `b`.
pub fn name_less(a: &String, b: &String) -> (r: bool)
    ensures
        r == name_lt(a@, b@),
{
    broadcast use vstd::string::group_string_axioms;
    let mut ia = a.as_str().chars();
    let mut ib = b.as_str().chars();
    let ghost mut k: int = 0;
    loop
        invariant
            0 <= k <= a@.len(),
            IteratorSpec::remaining(&ia) == a@.skip(k),
            name_lt(a@, b@) == name_lt(IteratorSpec::remaining(&ia), IteratorSpec::remaining(&ib)),
        decreases a@.len() - k,
    {
        let ca = ia.next();
        let cb = ib.next();
        match ca {
            None => {
                return cb.is_some();
            },
            Some(x) => match cb {
                None => {
                    return false;
                },
                Some(y) => {
                    if x != y {
                        return x < y;
                    }
                    proof {
                        k = k + 1;
                        assert(a@.skip(k - 1).drop_first() =~= a@.skip(k));
                    }
                },
            },
        }
    }
}

/// The subscriptions of a client to the change notifications of one node.
pub struct NetStreamManager {
    /// Whether every change is listened to.
    pub listening_for_any_notifications: bool,
    /// The tables whose changes are listened to, in the order of their names
    /// and each named once.
    pub listened_tables: Vec<String>,
    /// The connection to the node's notification port, while one is open.
    pub notification_stream: Option<NetStream>,
    /// Whether the connection uses TLS.
    pub use_tls: bool,
    /// Whether a TLS connection accepts invalid certificates.
    pub accept_invalid_certificates: bool,
}

impl View for NetStreamManager {
    type V = ListenView;

    open spec fn view(&self) -> ListenView {
        ListenView {
            any: self.listening_for_any_notifications,
            tables: table_names(self.listened_tables@),
            open: self.notification_stream is Some,
            use_tls: self.use_tls,
            accept_invalid_certificates: self.accept_invalid_certificates,
        }
    }
}

impl NetStreamManager {
    /// The manager is well formed: the tables are kept in the order of their
    /// names, each once, and the connection is open exactly while something
    /// is listened to.
    pub open spec fn wf(&self) -> bool {
        &&& sorted_names(self.listened_tables@)
        &&& well_formed(self@)
    }

    /// A manager that listens to nothing, with the given connection settings.
    pub fn new(use_tls: bool, accept_invalid_certificates: bool) -> (r: Self)
        ensures
            r@ == fresh(use_tls, accept_invalid_certificates),
            r.wf(),
    {
        let r = NetStreamManager {
            listening_for_any_notifications: false,
            listened_tables: Vec::new(),
            notification_stream: None,
            use_tls,
            accept_invalid_certificates,
        };
        proof {
            lemma_names_empty(r.listened_tables@);
        }
        r
    }

    /// Whether anything is listened to.
    pub fn is_listening(&self) -> (r: bool)
        ensures
            r == listening(self@),
    {
        proof {
            lemma_names_empty(self.listened_tables@);
        }
        self.listening_for_any_notifications || self.listened_tables.len() > 0
    }

    /// How a connection to the notification port is opened.
    pub fn connect_mode(&self) -> (r: Option<bool>)
        ensures
            r == connect_mode(self@),
    {
        if self.use_tls { Some(self.accept_invalid_certificates) } else { None }
    }

    /// The position of the named table among the listened ones.
    fn find_table(&self, table: &String) -> (r: Option<usize>)
        ensures
            match r {
                Some(k) => k < self.listened_tables@.len() && self.listened_tables@[k as int]@ == table@,
                None => !self@.tables.contains(table@),
            },
    {
        let n: usize = self.listened_tables.len();
        let mut k: usize = 0;
        while k < n
            invariant
                n == self.listened_tables@.len(),
                k <= n,
                forall|i: int| 0 <= i < k ==> #[trigger] self.listened_tables@[i]@ != table@,
            decreases n - k,
        {
            if self.listened_tables[k] == *table {
                return Some(k);
            }
            k = k + 1;
        }
        proof {
            if self@.tables.contains(table@) {
                let i = choose|i: int| 0 <= i < self.listened_tables@.len() && #[trigger] self.listened_tables@[i]@ == table@;
                assert(self.listened_tables@[i]@ != table@);
            }
        }
        None
    }

    /// The position at which the named table keeps the tables in the order
    /// of their names: after every table named before it.
    fn insert_position(&self, table: &String) -> (k: usize)
        ensures
            k <= self.listened_tables@.len(),
            forall|i: int| 0 <= i < k ==> name_lt(#[trigger] self.listened_tables@[i]@, table@),
            k < self.listened_tables@.len() ==> !name_lt(self.listened_tables@[k as int]@, table@),
    {
        let n: usize = self.listened_tables.len();
        let mut k: usize = 0;
        let mut reached: bool = false;
        while k < n && !reached
            invariant
                n == self.listened_tables@.len(),
                k <= n,
                forall|i: int| 0 <= i < k ==> name_lt(#[trigger] self.listened_tables@[i]@, table@),
                reached ==> k < n && !name_lt(self.listened_tables@[k as int]@, table@),
            decreases n - k + (if reached { 0int } else { 1int }),
        {
            if name_less(&self.listened_tables[k], table) {
                k = k + 1;
            } else {
                reached = true;
            }
        }
        k
    }

    /// Whether the changes of the named table are listened to.
    pub fn listens_to_table(&self, table: &String) -> (r: bool)
        ensures
            r == self@.tables.contains(table@),
    {
        match self.find_table(table) {
            Some(k) => {
                assert(self@.tables.contains(self.listened_tables@[k as int]@));
                true
            },
            None => false,
        }
    }

    /// Drops every subscription and the connection; the node notices the
    /// closed connection by itself.
    pub fn stop_listening_for_all(&mut self)
        ensures
            final(self)@ == cleared(old(self)@),
            final(self).wf(),
    {
        self.notification_stream = None;
        self.listened_tables.clear();
        self.listening_for_any_notifications = false;
        proof {
            lemma_names_empty(self.listened_tables@);
        }
        assert(self@ == cleared(old(self)@));
    }

    /// Records the connection that was opened when an operation asked to
    /// connect.
    pub fn attach_stream(&mut self, stream: NetStream)
        requires
            old(self).notification_stream is None,
        ensures
            final(self)@ == attached(old(self)@),
            final(self).notification_stream == Some(stream),
            final(self).listened_tables@ == old(self).listened_tables@,
    {
        self.notification_stream = Some(stream);
    }

    /// The first move of `start_listening_for_notifications`: nothing where
    /// every change is listened to already, else connect where no connection
    /// is open, else send `Register`.
    pub fn plan_start_listening_for_notifications(&self) -> (r: ListenStep)
        ensures
            r@ == start_all_plan(self@),
    {
        if self.listening_for_any_notifications {
            ListenStep::Done
        } else if self.notification_stream.is_none() {
            ListenStep::Connect(self.connect_mode())
        } else {
            ListenStep::Send(NotificationCommand::Register)
        }
    }

    /// Records the outcome of sending `Register`: every change is listened
    /// to, or, where the request could not be sent, everything is dropped.
    pub fn finish_start_listening_for_notifications(&mut self, sent: bool)
        ensures
            final(self)@ == start_all_sent(old(self)@, sent),
            sorted_names(old(self).listened_tables@) ==> sorted_names(final(self).listened_tables@),
    {
        if sent {
            self.listening_for_any_notifications = true;
        } else {
            self.stop_listening_for_all();
        }
    }

    /// The first move of `stop_listening_for_notifications`: nothing where no
    /// connection is open, else send `Unregister`.
    pub fn plan_stop_listening_for_notifications(&self) -> (r: ListenStep)
        ensures
            r@ == stop_all_plan(self@),
    {
        if self.notification_stream.is_none() {
            ListenStep::Done
        } else {
            ListenStep::Send(NotificationCommand::Unregister)
        }
    }

    /// Records the outcome of sending `Unregister`: every change is no longer
    /// listened to and the connection closes if nothing else is; where the
    /// request could not be sent, everything is dropped.
    pub fn finish_stop_listening_for_notifications(&mut self, sent: bool)
        ensures
            final(self)@ == stop_all_sent(old(self)@, sent),
            sorted_names(old(self).listened_tables@) ==> sorted_names(final(self).listened_tables@),
    {
        if sent {
            self.listening_for_any_notifications = false;
            if !self.is_listening() {
                self.notification_stream = None;
            }
        } else {
            self.stop_listening_for_all();
        }
    }

    /// The first move of `start_listening_for_table_notifications`: nothing
    /// where the table is listened to already, else connect where no
    /// connection is open, else send `RegisterForTable`.
    pub fn plan_start_listening_for_table_notifications(&self, table: &String) -> (r: ListenStep)
        ensures
            r@ == start_table_plan(self@, table@),
    {
        if self.listens_to_table(table) {
            ListenStep::Done
        } else if self.notification_stream.is_none() {
            ListenStep::Connect(self.connect_mode())
        } else {
            ListenStep::Send(NotificationCommand::RegisterForTable(table.clone()))
        }
    }

    /// Records the outcome of sending `RegisterForTable`: the table is
    /// listened to, or, where the request could not be sent, everything is
    /// dropped.
    pub fn finish_start_listening_for_table_notifications(&mut self, table: &String, sent: bool)
        ensures
            final(self)@ == start_table_sent(old(self)@, table@, sent),
            sorted_names(old(self).listened_tables@) ==> sorted_names(final(self).listened_tables@),
    {
        if sent {
            if self.find_table(table).is_none() {
                let ghost before = self.listened_tables@;
                let k: usize = self.insert_position(table);
                proof {
                    if sorted_names(before) && k < before.len() {
                        name_lt_total(before[k as int]@, table@);
                        assert(before[k as int]@ != table@) by {
                            assert(table_names(before).contains(before[k as int]@));
                        }
                    }
                }
                self.listened_tables.insert(k, table.clone());
                proof {
                    lemma_names_insert(before, k as int, *table);
                }
            } else {
                assert(self@.tables.insert(table@) =~= self@.tables);
            }
        } else {
            self.stop_listening_for_all();
        }
    }

    /// The first move of `stop_listening_for_table_notifications`: nothing
    /// where the table is not listened to, else send `UnregisterForTable`.
    pub fn plan_stop_listening_for_table_notifications(&self, table: &String) -> (r: ListenStep)
        ensures
            r@ == stop_table_plan(self@, table@),
    {
        if !self.listens_to_table(table) {
            ListenStep::Done
        } else {
            ListenStep::Send(NotificationCommand::UnregisterForTable(table.clone()))
        }
    }

    /// Records the outcome of sending `UnregisterForTable`: the table is no
    /// longer listened to and the connection closes if nothing else is; where
    /// the request could not be sent, everything is dropped.
    pub fn finish_stop_listening_for_table_notifications(&mut self, table: &String, sent: bool)
        ensures
            final(self)@ == stop_table_sent(old(self)@, table@, sent),
            sorted_names(old(self).listened_tables@) ==> sorted_names(final(self).listened_tables@),
    {
        if sent {
            let ghost names0 = self@.tables;
            let ghost sorted0 = sorted_names(self.listened_tables@);
            let mut found = self.find_table(table);
            while found.is_some()
                invariant
                    table_names(self.listened_tables@).remove(table@) == names0.remove(table@),
                    sorted0 ==> sorted_names(self.listened_tables@),
                    match found {
                        Some(k) => k < self.listened_tables@.len() && self.listened_tables@[k as int]@ == table@,
                        None => !self@.tables.contains(table@),
                    },
                    self.listening_for_any_notifications == old(self).listening_for_any_notifications,
                    self.notification_stream == old(self).notification_stream,
                    self.use_tls == old(self).use_tls,
                    self.accept_invalid_certificates == old(self).accept_invalid_certificates,
                decreases self.listened_tables@.len(),
            {
                let k: usize = found.unwrap();
                let ghost before = self.listened_tables@;
                self.listened_tables.remove(k);
                proof {
                    lemma_names_remove(before, k as int);
                }
                found = self.find_table(table);
            }
            assert(self@.tables =~= names0.remove(table@));
            if !self.is_listening() {
                self.notification_stream = None;
            }
        } else {
            self.stop_listening_for_all();
        }
    }
}

/// Every notification operation, whatever its connection and its request
/// come to, leaves a well-formed manager well formed: the connection is open
/// exactly while something is listened to.
pub proof fn operations_keep_well_formed(v: ListenView, table: Seq<char>, connected: bool, sent: bool)
    requires
        well_formed(v),
    ensures
        well_formed(start_all_effect(v, connected, sent).0),
        well_formed(stop_all_effect(v, sent).0),
        well_formed(start_table_effect(v, table, connected, sent).0),
        well_formed(stop_table_effect(v, table, sent).0),
{
    assert(v.tables.insert(table) != Set::<Seq<char>>::empty()) by {
        assert(v.tables.insert(table).contains(table));
    }
}

/// What a successful operation achieves: `start_listening_for_notifications`
/// listens to every change, `stop_listening_for_notifications` no longer
/// does, `start_listening_for_table_notifications` adds the table to the
/// listened ones and `stop_listening_for_table_notifications` takes it out,
/// leaving the other tables as they were.
pub proof fn successful_operations(v: ListenView, table: Seq<char>, connected: bool, sent: bool)
    ensures
        start_all_effect(v, connected, sent).1 ==> start_all_effect(v, connected, sent).0.any
            && start_all_effect(v, connected, sent).0.tables == v.tables,
        stop_all_effect(v, sent).1 && well_formed(v) ==> !stop_all_effect(v, sent).0.any
            && stop_all_effect(v, sent).0.tables == v.tables,
        start_table_effect(v, table, connected, sent).1
            ==> start_table_effect(v, table, connected, sent).0.tables == v.tables.insert(table)
            && start_table_effect(v, table, connected, sent).0.any == v.any,
        stop_table_effect(v, table, sent).1
            ==> stop_table_effect(v, table, sent).0.tables == v.tables.remove(table)
            && stop_table_effect(v, table, sent).0.any == v.any,
{
    if v.tables.contains(table) {
        assert(v.tables.insert(table) =~= v.tables);
    } else {
        assert(v.tables.remove(table) =~= v.tables);
    }
}

/// An operation that cannot send its request drops everything: nothing is
/// listened to afterwards and the connection is closed. An operation that
/// cannot open its connection changes nothing.
pub proof fn failed_operations(v: ListenView, table: Seq<char>, connected: bool)
    ensures
        !start_all_effect(v, connected, false).1 ==> {
            let w = start_all_effect(v, connected, false).0;
            if connected || v.open { w == cleared(v) } else { w == v }
        },
        !stop_all_effect(v, false).1 ==> stop_all_effect(v, false).0 == cleared(v),
        !start_table_effect(v, table, connected, false).1 ==> {
            let w = start_table_effect(v, table, connected, false).0;
            if connected || v.open { w == cleared(v) } else { w == v }
        },
        !stop_table_effect(v, table, false).1 ==> stop_table_effect(v, table, false).0 == cleared(v),
{
}

/// Once the connection that an operation asked for is open, the operation
/// sends its request: it never asks to connect twice.
pub proof fn connect_then_send(v: ListenView, table: Seq<char>)
    ensures
        start_all_plan(v) is Connect ==> start_all_plan(attached(v)) == StepView::Send(CommandView::Register),
        start_table_plan(v, table) is Connect
            ==> start_table_plan(attached(v), table) == StepView::Send(CommandView::RegisterForTable(table)),
{
}

/// Repeating a successful start, or a successful stop of a table, sends
/// nothing and changes nothing. (A repeated `stop_listening_for_notifications`
/// sends `Unregister` again while the connection stays open for tables.)
pub proof fn repeated_operations_do_nothing(v: ListenView, table: Seq<char>, c1: bool, s1: bool, c2: bool, s2: bool)
    requires
        well_formed(v),
    ensures
        start_all_effect(v, c1, s1).1 ==> {
            let w = start_all_effect(v, c1, s1).0;
            start_all_plan(w) == StepView::Done && start_all_effect(w, c2, s2) == (w, true)
        },
        start_table_effect(v, table, c1, s1).1 ==> {
            let w = start_table_effect(v, table, c1, s1).0;
            start_table_plan(w, table) == StepView::Done && start_table_effect(w, table, c2, s2) == (w, true)
        },
        stop_table_effect(v, table, s1).1 ==> {
            let w = stop_table_effect(v, table, s1).0;
            stop_table_plan(w, table) == StepView::Done && stop_table_effect(w, table, s2) == (w, true)
        },
{
}

/// The request that each operation sends over an open connection: a start
/// of every change sends `Register`, a stop of every change `Unregister`, a
/// start of a table `RegisterForTable` and a stop of a table
/// `UnregisterForTable`, both for that very table. A table that is listened
/// to is always unregistered, whether or not every change is listened to
/// too; with the connection closed, stopping every change sends nothing.
pub proof fn operations_send_their_requests(v: ListenView, table: Seq<char>)
    ensures
        v.open && !v.any ==> start_all_plan(v) == StepView::Send(CommandView::Register),
        v.open ==> stop_all_plan(v) == StepView::Send(CommandView::Unregister),
        !v.open ==> stop_all_plan(v) == StepView::Done,
        v.open && !v.tables.contains(table)
            ==> start_table_plan(v, table) == StepView::Send(CommandView::RegisterForTable(table)),
        v.tables.contains(table)
            ==> stop_table_plan(v, table) == StepView::Send(CommandView::UnregisterForTable(table)),
        !v.tables.contains(table) ==> stop_table_plan(v, table) == StepView::Done,
        !v.open && !v.any ==> start_all_plan(v) == StepView::Connect(connect_mode(v)),
        !v.open && !v.tables.contains(table)
            ==> start_table_plan(v, table) == StepView::Connect(connect_mode(v)),
        v.any ==> start_all_plan(v) == StepView::Done,
        v.tables.contains(table) ==> start_table_plan(v, table) == StepView::Done,
{
}

} // verus!
