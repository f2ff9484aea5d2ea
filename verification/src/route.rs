use vstd::prelude::*;

use crate::hazards::{Hazard, Hazards};
use crate::input::{Input, Inputs};
use crate::strings::{CapacityError, MiniString, MAXIMUM_STRING_SIZE};

verus! {

/// The maximum number of inputs taken at once by [`Route::inputs`].
pub const MAXIMUM_ELEMENTS: usize = 16;

/// Route inputs writing modes.
///
/// Route inputs can be added to a route in a different way depending on the
/// underlying implementation of a server.
#[derive(Debug, Clone, Copy, PartialEq, Eq, Structural)]
pub enum RouteMode {
    /// Linear routes. Inputs are written one after the other in the route:
    /// i.e. route/input1/input2
    Linear,
}

/// The text that [`RouteMode::Linear`] appends to a route for an input.
pub open spec fn linear_piece(name: Seq<char>, symbol: Option<Seq<char>>) -> Seq<char> {
    match symbol {
        Some(s) => seq!['/'] + s + name,
        None => seq!['/'] + name,
    }
}

/// A route followed by the linear pieces of all the given inputs.
pub open spec fn linear_join(route: Seq<char>, inputs: Seq<Input>, symbol: Option<Seq<char>>) -> Seq<char>
    decreases inputs.len(),
{
    if inputs.len() == 0 {
        route
    } else {
        linear_join(route, inputs.drop_last(), symbol) + linear_piece(inputs.last().name@, symbol)
    }
}

/// Joining one more input appends to the joined route a slash, the symbol
/// if any and the name of the input, whatever the structure of the input.
pub proof fn law_linear_join_appends_input(route: Seq<char>, inputs: Seq<Input>, input: Input, symbol: Option<Seq<char>>)
    ensures
        linear_join(route, inputs.push(input), symbol) == match symbol {
            Some(s) => linear_join(route, inputs, symbol) + seq!['/'] + s + input.name@,
            None => linear_join(route, inputs, symbol) + seq!['/'] + input.name@,
        },
{
    assert(inputs.push(input).drop_last() == inputs);
}

/// The route joined with the inputs is the route followed by its inputs'
/// pieces, each a slash, the symbol and the name: its length is that of the
/// route plus, for each input, one, the symbol's length and the name's
/// length.
pub proof fn law_linear_join_length(route: Seq<char>, inputs: Seq<Input>, symbol: Seq<char>)
    ensures
        linear_join(route, inputs, Some(symbol)).len() == route.len() + names_length(inputs) + inputs.len() * (
        symbol.len() + 1),
        linear_join(route, inputs, Some(symbol)).subrange(0, route.len() as int) == route,
    decreases inputs.len(),
{
    if inputs.len() > 0 {
        law_linear_join_length(route, inputs.drop_last(), symbol);
        let prefix = linear_join(route, inputs.drop_last(), Some(symbol));
        let whole = linear_join(route, inputs, Some(symbol));
        assert(whole == prefix + linear_piece(inputs.last().name@, Some(symbol)));
        assert(whole.subrange(0, route.len() as int) == prefix.subrange(0, route.len() as int));
        assert((inputs.len() - 1) * (symbol.len() + 1) + (symbol.len() + 1) == inputs.len() * (symbol.len() + 1))
            by (nonlinear_arith);
    }
}

/// The total length of the names of a sequence of inputs.
pub open spec fn names_length(inputs: Seq<Input>) -> nat
    decreases inputs.len(),
{
    if inputs.len() == 0 {
        0
    } else {
        names_length(inputs.drop_last()) + inputs.last().name@.len()
    }
}

/// The view of an optional string slice.
pub open spec fn opt_view(s: Option<&str>) -> Option<Seq<char>> {
    match s {
        Some(t) => Some(t@),
        None => None,
    }
}

proof fn lemma_linear_join_grows(route: Seq<char>, inputs: Seq<Input>, symbol: Option<Seq<char>>, k: int)
    requires
        0 <= k <= inputs.len(),
    ensures
        linear_join(route, inputs.take(k), symbol).len() <= linear_join(route, inputs, symbol).len(),
    decreases inputs.len(),
{
    if k < inputs.len() {
        assert(inputs.drop_last().take(k) == inputs.take(k));
        lemma_linear_join_grows(route, inputs.drop_last(), symbol, k);
    } else {
        assert(inputs.take(k) == inputs);
    }
}

impl RouteMode {
    // Some servers require a symbol to represent inputs.
    fn join_input(self, route: &mut MiniString, text: &str, symbol: Option<&str>) -> (r: Result<(), CapacityError>)
        ensures
            r is Ok <==> old(route)@.len() + linear_piece(text@, opt_view(symbol)).len() <= MAXIMUM_STRING_SIZE,
            r is Ok ==> final(route)@ == old(route)@ + linear_piece(text@, opt_view(symbol)),
            r is Err ==> final(route)@.len() <= MAXIMUM_STRING_SIZE,
    {
        match self {
            RouteMode::Linear => {
                // Every mini string fits in its capacity.
                let _ = route.len();
                let slash = "/";
                proof {
                    reveal_strlit("/");
                }
                route.push(slash)?;
                if let Some(symbol) = symbol {
                    route.push(symbol)?;
                }
                let r = route.push(text);
                proof {
                    let piece = linear_piece(text@, opt_view(symbol));
                    if symbol is Some {
                        assert(piece == seq!['/'] + symbol->0@ + text@);
                        assert(old(route)@ + seq!['/'] + symbol->0@ + text@ == old(route)@ + piece);
                    } else {
                        assert(old(route)@ + seq!['/'] + text@ == old(route)@ + piece);
                    }
                }
                r
            },
        }
    }
}

/// Kind of a `REST` API.
#[derive(Debug, Clone, Copy, PartialEq, Eq, Structural, Hash)]
pub enum RestKind {
    /// `GET` API.
    Get,
    /// `PUT` API.
    Put,
    /// `POST` API.
    Post,
    /// `DELETE` API.
    Delete,
}

impl RestKind {
    /// Returns the name of the `REST` API kind in upper case.
    pub fn as_str(&self) -> (r: &'static str)
        ensures
            r@ == rest_kind_name(*self),
    {
        match self {
            RestKind::Get => {
                proof { reveal_strlit("GET"); }
                "GET"
            },
            RestKind::Put => {
                proof { reveal_strlit("PUT"); }
                "PUT"
            },
            RestKind::Post => {
                proof { reveal_strlit("POST"); }
                "POST"
            },
            RestKind::Delete => {
                proof { reveal_strlit("DELETE"); }
                "DELETE"
            },
        }
    }
}

/// The upper-case name of a `REST` API kind.
pub open spec fn rest_kind_name(kind: RestKind) -> Seq<char> {
    match kind {
        RestKind::Get => seq!['G', 'E', 'T'],
        RestKind::Put => seq!['P', 'U', 'T'],
        RestKind::Post => seq!['P', 'O', 'S', 'T'],
        RestKind::Delete => seq!['D', 'E', 'L', 'E', 'T', 'E'],
    }
}


/// The abstract state of a [`Route`].
pub struct RouteView {
    /// Route.
    pub route: Seq<char>,
    /// REST kind.
    pub rest_kind: RestKind,
    /// Description.
    pub description: Option<Seq<char>>,
    /// Stateless parameter.
    pub stateless: bool,
    /// Inputs.
    pub inputs: Seq<Input>,
    /// Route joined with its inputs, empty when the inputs were never joined.
    pub inputs_route: Seq<char>,
}

/// The route of `v` as [`Route::route`] returns it.
pub open spec fn effective_route(v: RouteView) -> Seq<char> {
    if v.inputs_route.len() == 0 { v.route } else { v.inputs_route }
}

/// The inputs route that [`Route::join_inputs`] produces for a `GET`
/// route that has no inputs route yet: the joined route when it fits in a
/// [`MiniString`], the empty string otherwise.
pub open spec fn joined_inputs_route(v: RouteView, symbol: Option<Seq<char>>) -> Seq<char> {
    let joined = linear_join(v.route, v.inputs, symbol);
    if joined.len() <= MAXIMUM_STRING_SIZE { joined } else { Seq::empty() }
}

/// The state of a route after [`Route::join_inputs`]: only a `GET` route
/// whose inputs were not joined yet changes.
pub open spec fn join_result(v: RouteView, symbol: Option<Seq<char>>) -> RouteView {
    if v.rest_kind == RestKind::Get && v.inputs_route.len() == 0 {
        RouteView { inputs_route: joined_inputs_route(v, symbol), ..v }
    } else {
        v
    }
}

/// Joining the inputs of a route twice gives the route of joining them
/// once.
pub proof fn law_join_inputs_idempotent(v: RouteView, symbol: Option<Seq<char>>)
    ensures
        join_result(join_result(v, symbol), symbol) == join_result(v, symbol),
{
}

/// Joining the inputs of a route without inputs leaves the route it
/// returns unchanged.
pub proof fn law_join_without_inputs(v: RouteView, symbol: Option<Seq<char>>)
    requires
        v.inputs.len() == 0,
    ensures
        effective_route(join_result(v, symbol)) == effective_route(v),
{
}

/// Joining the inputs of a route that is not a `GET` one leaves it
/// unchanged.
pub proof fn law_join_only_get(v: RouteView, symbol: Option<Seq<char>>)
    requires
        v.rest_kind != RestKind::Get,
    ensures
        join_result(v, symbol) == v,
{
}

/// Joining the inputs of a `GET` route whose inputs were not joined yet,
/// when the result fits, gives the route followed, for each input, by a
/// slash, the symbol and the name of the input.
pub proof fn law_join_single_input(v: RouteView, symbol: Seq<char>, input: Input)
    requires
        v.rest_kind == RestKind::Get,
        v.inputs_route.len() == 0,
        v.inputs == seq![input],
        v.route.len() + 1 + symbol.len() + input.name@.len() <= MAXIMUM_STRING_SIZE,
    ensures
        effective_route(join_result(v, Some(symbol))) == v.route + seq!['/'] + symbol + input.name@,
{
    law_linear_join_appends_input(v.route, Seq::<Input>::empty(), input, Some(symbol));
    assert(Seq::<Input>::empty().push(input) == seq![input]);
    let j = v.route + seq!['/'] + symbol + input.name@;
    assert(linear_join(v.route, v.inputs, Some(symbol)) == j);
    assert(j.len() > 0);
}

/// A server route.
///
/// It represents a specific `REST` API which, when invoked, runs a task on
/// a remote device.
#[derive(Debug)]
pub struct Route {
    // Route.
    route: &'static str,
    // REST kind.
    rest_kind: RestKind,
    // Description.
    description: Option<&'static str>,
    // Stateless parameter.
    stateless: bool,
    // Inputs.
    inputs: Inputs,
    // Route with inputs.
    inputs_route: MiniString,
}

impl View for Route {
    type V = RouteView;

    closed spec fn view(&self) -> RouteView {
        RouteView {
            route: self.route@,
            rest_kind: self.rest_kind,
            description: opt_view(self.description),
            stateless: self.stateless,
            inputs: self.inputs@,
            inputs_route: self.inputs_route@,
        }
    }
}

impl Route {
    /// Creates a new [`Route`] through a REST `GET` API.
    pub fn get(route: &'static str) -> (r: Self)
        ensures
            r@ == Route::initial(RestKind::Get, route@),
    {
        Self::init(RestKind::Get, route)
    }

    /// Creates a new [`Route`] through a REST `PUT` API.
    pub fn put(route: &'static str) -> (r: Self)
        ensures
            r@ == Route::initial(RestKind::Put, route@),
    {
        Self::init(RestKind::Put, route)
    }

    /// Creates a new [`Route`] through a REST `POST` API.
    pub fn post(route: &'static str) -> (r: Self)
        ensures
            r@ == Route::initial(RestKind::Post, route@),
    {
        Self::init(RestKind::Post, route)
    }

    /// Sets the route description.
    pub fn description(self, description: &'static str) -> (r: Self)
        ensures
            r@ == (RouteView { description: Some(description@), ..self@ }),
    {
        let mut r = self;
        r.description = Some(description);
        r
    }

    /// Sets the route as stateless.
    pub fn stateless(self) -> (r: Self)
        ensures
            r@ == (RouteView { stateless: true, ..self@ }),
    {
        let mut r = self;
        r.stateless = true;
        r
    }

    /// Sets a single [`Input`].
    pub fn input(self, input: Input) -> (r: Self)
        ensures
            r@ == (RouteView { inputs: crate::input::inputs_insert(self@.inputs, input), ..self@ }),
    {
        let mut r = self;
        r.inputs.add(input);
        r
    }

    /// Sets more [`Input`]s, taking at most [`MAXIMUM_ELEMENTS`] of them.
    pub fn inputs(self, inputs: Vec<Input>) -> (r: Self)
        ensures
            r@ == (RouteView {
                inputs: inputs_insert_all(self@.inputs, inputs@.take(min_len(inputs@.len(), MAXIMUM_ELEMENTS as nat) as int)),
                ..self@
            }),
    {
        let mut r = self;
        let n = if inputs.len() < MAXIMUM_ELEMENTS { inputs.len() } else { MAXIMUM_ELEMENTS };
        let ghost taken = inputs@.take(n as int);
        let mut i: usize = 0;
        while i < n
            invariant
                0 <= i <= n <= inputs@.len(),
                taken == inputs@.take(n as int),
                r@ == (RouteView { inputs: inputs_insert_all(self@.inputs, taken.take(i as int)), ..self@ }),
            decreases n - i,
        {
            assert(taken.take(i + 1).drop_last() == taken.take(i as int));
            r.inputs.add(inputs[i].clone());
            i = i + 1;
        }
        assert(taken.take(n as int) == taken);
        r
    }

    /// Changes the route joining together the given inputs according to the
    /// schema defined by the [`RouteMode`] argument.
    ///
    /// An optional symbol to identify an input can be added if a server
    /// requires that kind of schema.
    ///
    /// This operation is performed **only** for the `GET` route mode.
    ///
    /// A route remains unchanged in the following cases:
    /// - Any other route kind has been set
    /// - The inputs have already been joined
    /// - The joined route does not fit in a [`MiniString`]
    pub fn join_inputs(&mut self, route_mode: RouteMode, symbol: Option<&str>)
        ensures
            final(self)@ == join_result(old(self)@, opt_view(symbol)),
    {
        if self.rest_kind != RestKind::Get || !self.inputs_route.is_empty() {
            return;
        }
        let ghost sym = opt_view(symbol);
        let ghost full = linear_join(self.route@, self.inputs@, sym);
        if self.inputs_route.push(self.route).is_err() {
            proof {
                lemma_linear_join_grows(self.route@, self.inputs@, sym, 0);
                assert(self.inputs@.take(0) == Seq::<Input>::empty());
                assert(linear_join(self.route@, self.inputs@.take(0), sym) == self.route@);
                assert(self.inputs_route@ =~= Seq::<char>::empty());
            }
            return;
        }
        proof {
            assert(self.inputs@.take(0) == Seq::<Input>::empty());
            assert(linear_join(self.route@, self.inputs@.take(0), sym) == self.route@);
            assert(self.inputs@.take(self.inputs@.len() as int) == self.inputs@);
        }
        let mut i: usize = 0;
        while i < self.inputs.len()
            invariant_except_break
                0 <= i <= self.inputs@.len(),
                self.rest_kind == old(self)@.rest_kind,
                self.route == old(self).route,
                self.inputs@ == old(self)@.inputs,
                self.description == old(self).description,
                self.stateless == old(self).stateless,
                sym == opt_view(symbol),
                full == linear_join(self.route@, self.inputs@, sym),
                self.inputs_route@ == linear_join(self.route@, self.inputs@.take(i as int), sym),
                self.inputs_route@.len() <= MAXIMUM_STRING_SIZE,
                self.inputs@.take(self.inputs@.len() as int) == self.inputs@,
            ensures
                self.rest_kind == old(self)@.rest_kind,
                self.route == old(self).route,
                self.inputs@ == old(self)@.inputs,
                self.description == old(self).description,
                self.stateless == old(self).stateless,
                self.inputs_route@ == (if full.len() <= MAXIMUM_STRING_SIZE { full } else { Seq::empty() }),
            decreases self.inputs@.len() - i,
        {
            let ghost before = self.inputs@.take(i as int);
            assert(self.inputs@.take(i + 1).drop_last() == before);
            let input = self.inputs.get(i);
            if route_mode.join_input(&mut self.inputs_route, input.name.as_str(), symbol).is_err() {
                proof {
                    lemma_linear_join_grows(self.route@, self.inputs@, sym, i + 1);
                }
                self.inputs_route = MiniString::empty();
                break;
            }
            i = i + 1;
            proof {
                if i == self.inputs@.len() {
                    assert(self.inputs@.take(i as int) == self.inputs@);
                }
            }
        }
        proof {
            if self.inputs@.len() == 0 {
                assert(self.inputs@.take(0) == self.inputs@);
            }
        }
    }

    /// Returns the route: the route joined with its inputs when they have
    /// been joined, the plain route otherwise.
    pub fn route(&self) -> (r: &str)
        ensures
            r@ == effective_route(self@),
    {
        if self.inputs_route.is_empty() {
            self.route
        } else {
            self.inputs_route.as_str()
        }
    }

    /// Returns [`RestKind`].
    pub fn kind(&self) -> (r: RestKind)
        ensures
            r == self@.rest_kind,
    {
        self.rest_kind
    }

    /// The state of a route just created.
    pub open spec fn initial(rest_kind: RestKind, route: Seq<char>) -> RouteView {
        RouteView {
            route,
            rest_kind,
            description: None,
            stateless: false,
            inputs: Seq::empty(),
            inputs_route: Seq::empty(),
        }
    }

    fn init(rest_kind: RestKind, route: &'static str) -> (r: Self)
        ensures
            r@ == Route::initial(rest_kind, route@),
    {
        Route {
            route,
            rest_kind,
            description: None,
            stateless: false,
            inputs: Inputs::new(),
            inputs_route: MiniString::empty(),
        }
    }
}

/// The smaller of two lengths.
pub open spec fn min_len(a: nat, b: nat) -> nat {
    if a < b { a } else { b }
}

/// The inputs of `s` after adding each input of `t` in turn.
pub open spec fn inputs_insert_all(s: Seq<Input>, t: Seq<Input>) -> Seq<Input>
    decreases t.len(),
{
    if t.len() == 0 {
        s
    } else {
        crate::input::inputs_insert(inputs_insert_all(s, t.drop_last()), t.last())
    }
}


/// Route data.
#[derive(Debug)]
pub struct RouteData<'a> {
    /// Name.
    pub name: &'a str,
    /// Description.
    pub description: Option<&'a str>,
    /// Stateless parameter.
    ///
    /// The route does not modify the internal state of a device.
    ///
    /// The default value is [`false`].
    pub stateless: bool,
    /// Inputs associated with a route.
    pub inputs: &'a Inputs,
}

/// A server route configuration.
#[derive(Debug)]
pub struct RouteConfig<'a> {
    /// Route.
    pub data: RouteData<'a>,
    /// Kind of a `REST` API.
    pub rest_kind: RestKind,
    /// Hazards data.
    pub hazards: &'a Hazards,
}

impl<'a> RouteConfig<'a> {
    /// Returns whether two configurations describe the same route: the same
    /// name and the same `REST` kind.
    pub fn same_route(&self, other: &RouteConfig) -> (r: bool)
        ensures
            r == (self.data.name@ == other.data.name@ && self.rest_kind == other.rest_kind),
    {
        crate::text::str_eq(self.data.name, other.data.name) && self.rest_kind == other.rest_kind
    }
}

impl Route {
    /// Returns whether two routes are the same: the same route and the same
    /// `REST` kind.
    pub fn same_route(&self, other: &Route) -> (r: bool)
        ensures
            r == (self@.route == other@.route && self@.rest_kind == other@.rest_kind),
    {
        crate::text::str_eq(self.route, other.route) && self.rest_kind == other.rest_kind
    }

    /// Returns the description.
    pub fn get_description(&self) -> (r: Option<&'static str>)
        ensures
            opt_view(r) == self@.description,
    {
        self.description
    }

    /// Returns whether the route is stateless.
    pub fn is_stateless(&self) -> (r: bool)
        ensures
            r == self@.stateless,
    {
        self.stateless
    }

    /// Returns the inputs.
    pub fn get_inputs(&self) -> (r: &Inputs)
        ensures
            r@ == self@.inputs,
    {
        &self.inputs
    }
}

/// A route with its associated hazards.
#[derive(Debug)]
pub struct RouteHazards {
    /// Route.
    pub route: Route,
    /// Hazards.
    pub hazards: Hazards,
}

impl RouteHazards {
    /// Creates a [`RouteHazards`] instance.
    pub fn new(route: Route, hazards: Hazards) -> (r: Self)
        ensures
            r.route == route,
            r.hazards == hazards,
    {
        RouteHazards { route, hazards }
    }

    /// Creates a [`RouteHazards`] without any hazard.
    pub fn no_hazards(route: Route) -> (r: Self)
        ensures
            r.route == route,
            r.hazards@ == Seq::<Hazard>::empty(),
    {
        RouteHazards { route, hazards: Hazards::new() }
    }

    /// Initializes a [`RouteHazards`] with a single [`Hazard`].
    pub fn single_hazard(route: Route, hazard: Hazard) -> (r: Self)
        ensures
            r.route == route,
            r.hazards@ == seq![hazard],
    {
        let hazards = Hazards::new().insert(hazard);
        assert(crate::hazards::seq_insert(Seq::empty(), hazard) == seq![hazard]);
        RouteHazards { route, hazards }
    }

    /// Initializes a [`RouteHazards`] with some [`Hazard`]s.
    pub fn with_hazards(route: Route, hazards: &'static [Hazard]) -> (r: Self)
        ensures
            r.route == route,
            r.hazards@ == crate::hazards::seq_from_slice(hazards@),
    {
        RouteHazards { route, hazards: Hazards::init_with_elements(hazards) }
    }

    /// Returns whether two values describe the same route.
    pub fn same_route(&self, other: &RouteHazards) -> (r: bool)
        ensures
            r == (self.route@.route == other.route@.route && self.route@.rest_kind == other.route@.rest_kind),
    {
        self.route.same_route(&other.route)
    }

    /// Serializes [`RouteHazards`] data.
    pub fn serialize_data(&self) -> (r: RouteConfig<'_>)
        ensures
            describes(r, *self),
    {
        RouteConfig {
            rest_kind: self.route.kind(),
            hazards: &self.hazards,
            data: RouteData {
                name: self.route.route(),
                description: self.route.get_description(),
                stateless: self.route.is_stateless(),
                inputs: self.route.get_inputs(),
            },
        }
    }
}


/// Whether a route configuration describes a route with its hazards.
pub open spec fn describes(c: RouteConfig, a: RouteHazards) -> bool {
    &&& c.rest_kind == a.route@.rest_kind
    &&& c.hazards@ == a.hazards@
    &&& c.data.name@ == effective_route(a.route@)
    &&& opt_view(c.data.description) == a.route@.description
    &&& c.data.stateless == a.route@.stateless
    &&& c.data.inputs@ == a.route@.inputs
}

/// What identifies the configuration of a route: its name and its `REST`
/// kind.
pub open spec fn config_key(a: RouteHazards) -> (Seq<char>, RestKind) {
    (effective_route(a.route@), a.route@.rest_kind)
}

/// The routes of `s` whose configuration is not the same as the one of an
/// earlier route, in order.
pub open spec fn first_routes(s: Seq<RouteHazards>) -> Seq<RouteHazards>
    decreases s.len(),
{
    if s.len() == 0 {
        Seq::empty()
    } else {
        let p = first_routes(s.drop_last());
        if exists|j: int| 0 <= j < s.len() - 1 && config_key(#[trigger] s[j]) == config_key(s.last()) {
            p
        } else {
            p.push(s.last())
        }
    }
}

proof fn lemma_first_routes(s: Seq<RouteHazards>)
    ensures
        forall|k: int| 0 <= k < first_routes(s).len() ==> exists|j: int|
            0 <= j < s.len() && #[trigger] first_routes(s)[k] == s[j],
        forall|j: int| #![trigger s[j]] 0 <= j < s.len() ==> exists|k: int|
            0 <= k < first_routes(s).len() && config_key(#[trigger] first_routes(s)[k]) == config_key(s[j]),
    decreases s.len(),
{
    if s.len() > 0 {
        let t = s.drop_last();
        lemma_first_routes(t);
        let p = first_routes(t);
        assert forall|k: int| 0 <= k < first_routes(s).len() implies exists|j: int|
            0 <= j < s.len() && #[trigger] first_routes(s)[k] == s[j] by {
            if k < p.len() {
                assert(first_routes(s)[k] == p[k]);
                let j = choose|j: int| 0 <= j < t.len() && p[k] == t[j];
                assert(t[j] == s[j]);
            } else {
                assert(first_routes(s)[k] == s[s.len() - 1]);
            }
        }
        assert forall|j: int| #![trigger s[j]] 0 <= j < s.len() implies exists|k: int|
            0 <= k < first_routes(s).len() && config_key(#[trigger] first_routes(s)[k]) == config_key(s[j]) by {
            if j < s.len() - 1 {
                assert(s[j] == t[j]);
                let k = choose|k: int| 0 <= k < p.len() && config_key(p[k]) == config_key(t[j]);
                assert(first_routes(s)[k] == p[k]);
            } else if exists|i: int| 0 <= i < s.len() - 1 && config_key(#[trigger] s[i]) == config_key(s.last()) {
                let i = choose|i: int| 0 <= i < s.len() - 1 && config_key(#[trigger] s[i]) == config_key(s.last());
                assert(s[i] == t[i]);
                let k = choose|k: int| 0 <= k < p.len() && config_key(p[k]) == config_key(t[i]);
                assert(first_routes(s)[k] == p[k]);
            } else {
                assert(first_routes(s)[p.len() as int] == s.last());
            }
        }
    }
}

/// Serializes routes with their hazards, in order, leaving out a route
/// whose configuration is the same as the one of an earlier route.
pub fn serialize_routes(routes: &[RouteHazards]) -> (r: Vec<RouteConfig<'_>>)
    ensures
        r@.len() == first_routes(routes@).len(),
        forall|i: int| 0 <= i < r@.len() ==> describes(#[trigger] r@[i], first_routes(routes@)[i]),
{
    let mut configs: Vec<RouteConfig<'_>> = Vec::new();
    let mut i: usize = 0;
    assert(routes@.take(0) == Seq::<RouteHazards>::empty());
    while i < routes.len()
        invariant
            0 <= i <= routes@.len(),
            configs@.len() == first_routes(routes@.take(i as int)).len(),
            forall|k: int| 0 <= k < configs@.len() ==> describes(#[trigger] configs@[k], first_routes(routes@.take(i as int))[k]),
        decreases routes@.len() - i,
    {
        let ghost t = routes@.take(i as int);
        let ghost u = routes@.take(i + 1);
        assert(u.drop_last() == t);
        assert(u.last() == routes@[i as int]);
        proof {
            lemma_first_routes(t);
        }
        let config = routes[i].serialize_data();
        let mut found = false;
        let mut k: usize = 0;
        while k < configs.len()
            invariant
                0 <= k <= configs@.len(),
                configs@.len() == first_routes(t).len(),
                forall|m: int| 0 <= m < configs@.len() ==> describes(#[trigger] configs@[m], first_routes(t)[m]),
                describes(config, routes@[i as int]),
                !found ==> forall|m: int| 0 <= m < k ==> config_key(#[trigger] first_routes(t)[m]) != config_key(routes@[i as int]),
                found ==> exists|m: int| 0 <= m < configs@.len() && config_key(#[trigger] first_routes(t)[m]) == config_key(routes@[i as int]),
            decreases configs@.len() - k,
        {
            if configs[k].same_route(&config) {
                proof {
                    assert(describes(configs@[k as int], first_routes(t)[k as int]));
                }
                found = true;
            }
            k = k + 1;
        }
        proof {
            if found {
                let m = choose|m: int| 0 <= m < configs@.len() && config_key(#[trigger] first_routes(t)[m]) == config_key(routes@[i as int]);
                let j = choose|j: int| 0 <= j < t.len() && #[trigger] first_routes(t)[m] == t[j];
                assert(u[j] == t[j]);
                assert(config_key(u[j]) == config_key(u.last()));
                assert(first_routes(u) == first_routes(t));
            } else {
                if exists|j: int| 0 <= j < u.len() - 1 && config_key(#[trigger] u[j]) == config_key(u.last()) {
                    let j = choose|j: int| 0 <= j < u.len() - 1 && config_key(#[trigger] u[j]) == config_key(u.last());
                    assert(u[j] == t[j]);
                    let m = choose|m: int| 0 <= m < first_routes(t).len() && config_key(#[trigger] first_routes(t)[m]) == config_key(t[j]);
                    assert(false);
                }
                assert(first_routes(u) == first_routes(t).push(routes@[i as int]));
            }
        }
        if !found {
            configs.push(config);
        }
        i = i + 1;
    }
    assert(routes@.take(routes@.len() as int) == routes@);
    configs
}

}
