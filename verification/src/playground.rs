//! Small greeting services covering the four RPC shapes (unary, server
//! streaming, client streaming, bidirectional). They share no state with
//! the chat core; each holds the pure response computation, while the
//! surrounding transport lives outside the library.

use vstd::prelude::*;
use vstd::string::StringExecFns;

verus! {

/// The greeting every service builds for one name.
pub open spec fn greeting_view(name: Seq<char>) -> Seq<char> {
    "Hello "@ + name + "!"@
}

/// Builds `Hello <name>!`.
pub fn greeting(name: &str) -> (r: String)
    ensures
        r@ == greeting_view(name@),
{
    let mut s = "Hello ".to_owned();
    s.append(name);
    s.append("!");
    s
}

/// The decimal digit characters of `n`, most significant first.
pub open spec fn decimal_view(n: nat) -> Seq<char>
    decreases n,
{
    if n < 10 {
        seq![digit_char(n)]
    } else {
        decimal_view(n / 10).push(digit_char(n % 10))
    }
}

/// The character for one decimal digit.
pub open spec fn digit_char(d: nat) -> char {
    if d == 0 {
        '0'
    } else if d == 1 {
        '1'
    } else if d == 2 {
        '2'
    } else if d == 3 {
        '3'
    } else if d == 4 {
        '4'
    } else if d == 5 {
        '5'
    } else if d == 6 {
        '6'
    } else if d == 7 {
        '7'
    } else if d == 8 {
        '8'
    } else {
        '9'
    }
}

/// The digit characters a stack of collected low-order digits will
/// contribute, most recently collected first.
spec fn stack_view(ds: Seq<u32>) -> Seq<char>
    decreases ds.len(),
{
    if ds.len() == 0 {
        Seq::<char>::empty()
    } else {
        seq![digit_char(ds.last() as nat)] + stack_view(ds.drop_last())
    }
}

fn digit_str(d: u32) -> (r: &'static str)
    requires
        d < 10,
    ensures
        r@ == seq![digit_char(d as nat)],
{
    proof {
        reveal_strlit("0");
        reveal_strlit("1");
        reveal_strlit("2");
        reveal_strlit("3");
        reveal_strlit("4");
        reveal_strlit("5");
        reveal_strlit("6");
        reveal_strlit("7");
        reveal_strlit("8");
        reveal_strlit("9");
    }
    let r = match d {
        0 => "0",
        1 => "1",
        2 => "2",
        3 => "3",
        4 => "4",
        5 => "5",
        6 => "6",
        7 => "7",
        8 => "8",
        _ => "9",
    };
    proof {
        assert(r@ =~= seq![digit_char(d as nat)]);
    }
    r
}

/// Renders `n` in decimal.
pub fn u32_to_decimal(n: u32) -> (r: String)
    ensures
        r@ == decimal_view(n as nat),
{
    let mut stack: Vec<u32> = Vec::new();
    let mut m: u32 = n;
    proof {
        assert(decimal_view(n as nat) =~= decimal_view(n as nat) + stack_view(stack@));
    }
    while m >= 10
        invariant
            decimal_view(n as nat) == decimal_view(m as nat) + stack_view(stack@),
            forall|k: int| 0 <= k < stack@.len() ==> #[trigger] stack@[k] < 10,
        decreases m,
    {
        let d = m % 10;
        let ghost pre = stack@;
        stack.push(d);
        proof {
            assert(stack@.last() == d);
            assert(stack@.drop_last() =~= pre);
            assert(decimal_view(m as nat) == decimal_view((m / 10) as nat).push(
                digit_char((m % 10) as nat),
            ));
            assert(decimal_view((m / 10) as nat) + stack_view(stack@) =~= decimal_view(m as nat)
                + stack_view(pre));
        }
        m = m / 10;
    }
    let mut s = digit_str(m).to_owned();
    while stack.len() > 0
        invariant
            s@ + stack_view(stack@) == decimal_view(n as nat),
            forall|k: int| 0 <= k < stack@.len() ==> #[trigger] stack@[k] < 10,
        decreases stack.len(),
    {
        let ghost pre = stack@;
        let d = match stack.pop() {
            Some(d) => d,
            None => 0,
        };
        proof {
            assert(pre.last() == d);
            assert(pre.drop_last() =~= stack@);
            assert(d < 10);
        }
        let ds = digit_str(d);
        let ghost s0 = s@;
        s.append(ds);
        proof {
            assert(stack_view(pre) == seq![digit_char(d as nat)] + stack_view(stack@));
            assert(s@ =~= s0 + seq![digit_char(d as nat)]);
            assert(s@ + stack_view(stack@) =~= s0 + stack_view(pre));
        }
    }
    proof {
        assert(s@ =~= s@ + stack_view(stack@));
    }
    s
}

/// The greeting the server-streaming service sends as its `i`-th
/// response to `name`.
pub open spec fn numbered_greeting_view(i: nat, name: Seq<char>) -> Seq<char> {
    "Hello ("@ + decimal_view(i) + ") "@ + name
}

/// Builds `Hello (<i>) <name>`.
pub fn numbered_greeting(i: u32, name: &str) -> (r: String)
    ensures
        r@ == numbered_greeting_view(i as nat, name@),
{
    let mut s = "Hello (".to_owned();
    let digits = u32_to_decimal(i);
    s.append(digits.as_str());
    s.append(") ");
    s.append(name);
    s
}

/// The names joined with a comma separator, as the client-streaming
/// service echoes them back.
pub open spec fn joined_view(names: Seq<Seq<char>>) -> Seq<char>
    decreases names.len(),
{
    if names.len() == 0 {
        Seq::<char>::empty()
    } else if names.len() == 1 {
        names[0]
    } else {
        joined_view(names.drop_last()) + ", "@ + names.last()
    }
}

/// Joins `names` with `, `.
pub fn join_names(names: &Vec<String>) -> (r: String)
    ensures
        r@ == joined_view(names@.map_values(|s: String| s@)),
{
    let ghost vs = names@.map_values(|s: String| s@);
    let mut s = String::new();
    let mut i: usize = 0;
    while i < names.len()
        invariant
            i <= names@.len(),
            vs == names@.map_values(|s: String| s@),
            s@ == joined_view(vs.take(i as int)),
        decreases names@.len() - i,
    {
        if i > 0 {
            s.append(", ");
        }
        s.append(names[i].as_str());
        proof {
            assert(vs[i as int] == names@[i as int]@);
            if i == 0 {
                assert(vs.take(1).len() == 1);
                assert(vs.take(1)[0] == vs[0]);
                assert(s@ =~= joined_view(vs.take(1)));
            } else {
                assert(vs.take(i + 1).drop_last() =~= vs.take(i as int));
                assert(vs.take(i + 1).last() == vs[i as int]);
                assert(vs.take(i + 1).len() >= 2);
                assert(s@ =~= joined_view(vs.take(i as int)) + ", "@ + vs[i as int]);
                assert(s@ =~= joined_view(vs.take(i + 1)));
            }
        }
        i += 1;
    }
    proof {
        assert(vs.take(vs.len() as int) =~= vs);
    }
    s
}

/// The unary greeter.
pub struct Greeter {}

impl Greeter {
    pub fn new() -> (r: Greeter)
        ensures
            r == (Greeter {  }),
    {
        Greeter {  }
    }

    /// The reply to one hello request.
    pub fn say_hello(&self, name: &str) -> (r: String)
        ensures
            r@ == greeting_view(name@),
    {
        greeting(name)
    }
}

/// The unary demo service.
pub struct UnaryService {}

impl UnaryService {
    pub fn new() -> (r: UnaryService)
        ensures
            r == (UnaryService {  }),
    {
        UnaryService {  }
    }

    /// The reply to one unary call.
    pub fn unary_call(&self, name: &str) -> (r: String)
        ensures
            r@ == greeting_view(name@),
    {
        greeting(name)
    }
}

/// The server-streaming demo service.
pub struct ServerStreamingService {}

impl ServerStreamingService {
    pub fn new() -> (r: ServerStreamingService)
        ensures
            r == (ServerStreamingService {  }),
    {
        ServerStreamingService {  }
    }

    /// The whole response stream for one request: one numbered greeting
    /// per requested response.
    pub fn server_stream(&self, name: &str, number_of_responses: u32) -> (r: Vec<String>)
        ensures
            r@.len() == number_of_responses as int,
            forall|i: int|
                0 <= i < r@.len() ==> (#[trigger] r@[i])@ == numbered_greeting_view(
                    i as nat,
                    name@,
                ),
    {
        let mut out: Vec<String> = Vec::new();
        let mut i: u32 = 0;
        while i < number_of_responses
            invariant
                i <= number_of_responses,
                out@.len() == i as int,
                forall|k: int|
                    0 <= k < out@.len() ==> (#[trigger] out@[k])@ == numbered_greeting_view(
                        k as nat,
                        name@,
                    ),
            decreases number_of_responses - i,
        {
            out.push(numbered_greeting(i, name));
            i += 1;
        }
        out
    }
}

/// The client-streaming demo service.
pub struct ClientStreamingService {}

impl ClientStreamingService {
    pub fn new() -> (r: ClientStreamingService)
        ensures
            r == (ClientStreamingService {  }),
    {
        ClientStreamingService {  }
    }

    /// The single reply summarising every name the client streamed in.
    pub fn client_stream(&self, names: &Vec<String>) -> (r: String)
        ensures
            r@ == "Hello "@ + joined_view(names@.map_values(|s: String| s@)),
    {
        let mut s = "Hello ".to_owned();
        let joined = join_names(names);
        s.append(joined.as_str());
        s
    }
}

/// The bidirectional-streaming demo service.
pub struct BidirectionalStreamingService {}

impl BidirectionalStreamingService {
    pub fn new() -> (r: BidirectionalStreamingService)
        ensures
            r == (BidirectionalStreamingService {  }),
    {
        BidirectionalStreamingService {  }
    }

    /// The replies to a batch of streamed requests: one greeting each.
    pub fn bidirectional_stream(&self, names: &Vec<String>) -> (r: Vec<String>)
        ensures
            r@.len() == names@.len(),
            forall|i: int|
                0 <= i < r@.len() ==> (#[trigger] r@[i])@ == greeting_view(names@[i]@),
    {
        let mut out: Vec<String> = Vec::new();
        let mut i: usize = 0;
        while i < names.len()
            invariant
                i <= names@.len(),
                out@.len() == i as int,
                forall|k: int|
                    0 <= k < out@.len() ==> (#[trigger] out@[k])@ == greeting_view(names@[k]@),
            decreases names@.len() - i,
        {
            out.push(greeting(names[i].as_str()));
            i += 1;
        }
        out
    }
}

} // verus!
