use vstd::prelude::*;

verus! {

/// A parameter of the test function that `#[meilisearch_test]` annotates, as
/// the macro reads it.
#[derive(Debug, Clone)]
pub enum ParamType {
    /// A typed parameter whose type is a path; `last` names its last segment
    /// and `shown` is the type as the error message shows it.
    Path { last: String, shown: String },
    /// A typed parameter whose type is not a path.
    Other { shown: String },
    /// A `self` parameter.
    Receiver,
}

/// The item that `#[meilisearch_test]` annotates.
#[derive(Debug, Clone)]
pub enum TestItem {
    Function { name: String, is_async: bool, params: Vec<ParamType> },
    Other,
}

/// What the macro hands to one parameter of the test.
#[derive(Debug, Clone, Copy, PartialEq, Eq, Structural)]
pub enum Param {
    Client,
    Index,
    String,
}

/// Why `#[meilisearch_test]` refuses an item.
#[derive(Debug, Clone)]
pub enum MacroError {
    /// The attribute was given arguments.
    HasArguments,
    /// The item is not a function.
    NotAFunction,
    /// The function is not `async`.
    NotAsync,
    /// A parameter has a type that the macro cannot provide; the text shows it.
    UnsupportedType(String),
    /// The function takes `self`.
    Receiver,
}

/// One statement of the test function that the macro writes.
#[derive(Debug, Clone, Copy, PartialEq, Eq, Structural)]
pub enum Step {
    /// `let client = Client::new("http://localhost:7700", "masterKey");`
    CreateClient,
    /// `let name = "<test name>".to_string();`
    BindName,
    /// Create the index `name` and wait until the server has made it.
    CreateIndex,
    /// Call the renamed test body with the arguments and keep its result.
    CallInner,
    /// Delete the index and wait until the server has deleted it.
    DeleteIndex,
    /// Return the kept result.
    ReturnResult,
}

/// The function that the macro writes in place of the annotated one.
#[derive(Debug, Clone)]
pub struct TestPlan {
    /// The name under which the annotated body is kept.
    pub inner_name: String,
    /// The name of the test, which also names its index.
    pub test_name: String,
    /// What the body receives, in the order of its parameters.
    pub args: Vec<Param>,
    /// The statements of the written test, in order.
    pub steps: Vec<Step>,
}

/// What one parameter receives, or why the macro refuses it.
pub open spec fn classify(p: ParamType) -> Result<Param, MacroError> {
    match p {
        ParamType::Path { last, shown } => if last@ == "String"@ {
            Ok(Param::String)
        } else if last@ == "Index"@ {
            Ok(Param::Index)
        } else if last@ == "Client"@ {
            Ok(Param::Client)
        } else {
            Err(MacroError::UnsupportedType(shown))
        },
        ParamType::Other { shown } => Err(MacroError::UnsupportedType(shown)),
        ParamType::Receiver => Err(MacroError::Receiver),
    }
}

/// Whether `p` is a parameter whose type is a path ending in `Index`.
pub open spec fn is_index_param(p: ParamType) -> bool {
    p matches ParamType::Path { last, .. } && last@ == "Index"@
}

/// What the parameters receive, in order, or the refusal of the first one
/// that the macro cannot serve.
pub open spec fn classify_all(ps: Seq<ParamType>) -> Result<Seq<Param>, MacroError>
    decreases ps.len(),
{
    if ps.len() == 0 {
        Ok(Seq::empty())
    } else {
        match classify_all(ps.drop_last()) {
            Err(e) => Err(e),
            Ok(done) => match classify(ps.last()) {
                Ok(p) => Ok(done.push(p)),
                Err(e) => Err(e),
            },
        }
    }
}

/// Whether the test needs a client: some parameter is a client or an index.
pub open spec fn needs_client(ps: Seq<Param>) -> bool {
    exists|i: int| 0 <= i < ps.len() && (ps[i] == Param::Client || ps[i] == Param::Index)
}

/// Whether the test needs its name: some parameter is a string or an index.
pub open spec fn needs_name(ps: Seq<Param>) -> bool {
    exists|i: int| 0 <= i < ps.len() && (ps[i] == Param::String || ps[i] == Param::Index)
}

/// Whether the test needs an index of its own.
pub open spec fn needs_index(ps: Seq<Param>) -> bool {
    exists|i: int| 0 <= i < ps.len() && ps[i] == Param::Index
}

/// `s` when `b` holds, else nothing.
pub open spec fn when(b: bool, s: Step) -> Seq<Step> {
    if b {
        seq![s]
    } else {
        Seq::empty()
    }
}

/// The statements of the written test for the given needs.
pub open spec fn steps_for(client: bool, name: bool, index: bool) -> Seq<Step> {
    when(client, Step::CreateClient) + when(name, Step::BindName) + when(index, Step::CreateIndex)
        + seq![Step::CallInner] + when(index, Step::DeleteIndex) + seq![Step::ReturnResult]
}

/// The prefix of the name under which the annotated body is kept.
pub open spec fn inner_prefix() -> Seq<char> {
    "_inner_meilisearch_test_macro_"@
}

/// Whether `plan` is what the macro writes for the test `name` whose
/// parameters receive `args`.
pub open spec fn plans(plan: TestPlan, name: Seq<char>, args: Seq<Param>) -> bool {
    &&& plan.inner_name@ == inner_prefix() + name
    &&& plan.test_name@ == name
    &&& plan.args@ == args
    &&& plan.steps@ == steps_for(needs_client(args), needs_name(args), needs_index(args))
}

/// What one parameter receives, or why the macro refuses it.
pub fn classify_param(p: &ParamType) -> (res: Result<Param, MacroError>)
    ensures
        res == classify(*p),
{
    match p {
        ParamType::Path { last, shown } => {
            if *last == String::from("String") {
                Ok(Param::String)
            } else if *last == String::from("Index") {
                Ok(Param::Index)
            } else if *last == String::from("Client") {
                Ok(Param::Client)
            } else {
                Err(MacroError::UnsupportedType(shown.clone()))
            }
        },
        ParamType::Other { shown } => Err(MacroError::UnsupportedType(shown.clone())),
        ParamType::Receiver => Err(MacroError::Receiver),
    }
}

/// What the parameters receive, in order, or the refusal of the first one
/// that the macro cannot serve.
pub fn classify_params(ps: &Vec<ParamType>) -> (res: Result<Vec<Param>, MacroError>)
    ensures
        match (res, classify_all(ps@)) {
            (Ok(v), Ok(s)) => v@ == s,
            (Err(e1), Err(e2)) => e1 == e2,
            _ => false,
        },
{
    let mut out: Vec<Param> = Vec::new();
    let n = ps.len();
    let mut i: usize = 0;
    while i < n
        invariant
            n == ps@.len(),
            i <= n,
            classify_all(ps@.take(i as int)) == Ok::<Seq<Param>, MacroError>(out@),
        decreases n - i,
    {
        assert(ps@.take(i + 1).drop_last() =~= ps@.take(i as int));
        assert(ps@.take(i + 1).last() == ps@[i as int]);
        match classify_param(&ps[i]) {
            Ok(p) => {
                out.push(p);
            },
            Err(e) => {
                proof {
                    lemma_first_error_stays(ps@, (i + 1) as nat);
                }
                return Err(e);
            },
        }
        i = i + 1;
    }
    assert(ps@.take(n as int) =~= ps@);
    Ok(out)
}

/// Once a prefix of the parameters is refused, every longer prefix is
/// refused for the same reason.
proof fn lemma_first_error_stays(ps: Seq<ParamType>, k: nat)
    requires
        k <= ps.len(),
        classify_all(ps.take(k as int)) is Err,
    ensures
        classify_all(ps) == classify_all(ps.take(k as int)),
    decreases ps.len() - k,
{
    if k < ps.len() {
        let next = ps.take(k + 1 as int);
        assert(next.drop_last() =~= ps.take(k as int));
        lemma_first_error_stays(ps, (k + 1) as nat);
    } else {
        assert(ps.take(k as int) =~= ps);
    }
}

/// Whether some parameter is a client or an index.
pub fn uses_client(ps: &Vec<Param>) -> (b: bool)
    ensures
        b == needs_client(ps@),
        b <==> exists|i: int|
            0 <= i < ps@.len() && (ps@[i] == Param::Client || ps@[i] == Param::Index),
{
    let mut i: usize = 0;
    while i < ps.len()
        invariant
            i <= ps@.len(),
            forall|j: int| 0 <= j < i ==> ps@[j] != Param::Client && ps@[j] != Param::Index,
        decreases ps.len() - i,
    {
        if ps[i] == Param::Client || ps[i] == Param::Index {
            return true;
        }
        i = i + 1;
    }
    false
}

/// Whether some parameter is a string or an index.
pub fn uses_name(ps: &Vec<Param>) -> (b: bool)
    ensures
        b == needs_name(ps@),
        b <==> exists|i: int|
            0 <= i < ps@.len() && (ps@[i] == Param::String || ps@[i] == Param::Index),
{
    let mut i: usize = 0;
    while i < ps.len()
        invariant
            i <= ps@.len(),
            forall|j: int| 0 <= j < i ==> ps@[j] != Param::String && ps@[j] != Param::Index,
        decreases ps.len() - i,
    {
        if ps[i] == Param::String || ps[i] == Param::Index {
            return true;
        }
        i = i + 1;
    }
    false
}

/// Whether some parameter is an index.
pub fn uses_index(ps: &Vec<Param>) -> (b: bool)
    ensures
        b == needs_index(ps@),
        b <==> exists|i: int| 0 <= i < ps@.len() && ps@[i] == Param::Index,
{
    let mut i: usize = 0;
    while i < ps.len()
        invariant
            i <= ps@.len(),
            forall|j: int| 0 <= j < i ==> ps@[j] != Param::Index,
        decreases ps.len() - i,
    {
        if ps[i] == Param::Index {
            return true;
        }
        i = i + 1;
    }
    false
}

/// The statements of the written test for the given needs.
pub fn plan_steps(client: bool, name: bool, index: bool) -> (steps: Vec<Step>)
    ensures
        steps@ == steps_for(client, name, index),
{
    let mut steps: Vec<Step> = Vec::new();
    if client {
        steps.push(Step::CreateClient);
    }
    if name {
        steps.push(Step::BindName);
    }
    if index {
        steps.push(Step::CreateIndex);
    }
    steps.push(Step::CallInner);
    if index {
        steps.push(Step::DeleteIndex);
    }
    steps.push(Step::ReturnResult);
    assert(steps@ =~= steps_for(client, name, index));
    steps
}

/// The attribute takes no arguments: `has_arguments` tells whether it was
/// given some.
pub fn check_arguments(has_arguments: bool) -> (res: Result<(), MacroError>)
    ensures
        res == if has_arguments {
            Err::<(), MacroError>(MacroError::HasArguments)
        } else {
            Ok::<(), MacroError>(())
        },
{
    if has_arguments {
        Err(MacroError::HasArguments)
    } else {
        Ok(())
    }
}

/// What `#[meilisearch_test]` writes in place of `item`, or why it refuses it.
pub fn plan_meilisearch_test(item: &TestItem) -> (res: Result<TestPlan, MacroError>)
    ensures
        match *item {
            TestItem::Other => res == Err::<TestPlan, MacroError>(MacroError::NotAFunction),
            TestItem::Function { name, is_async, params } => if !is_async {
                res == Err::<TestPlan, MacroError>(MacroError::NotAsync)
            } else {
                match classify_all(params@) {
                    Err(e) => res == Err::<TestPlan, MacroError>(e),
                    Ok(args) => res matches Ok(plan) && plans(plan, name@, args),
                }
            },
        },
        res matches Ok(plan) ==> (item matches TestItem::Function { params, .. } && {
            let index_asked = exists|i: int|
                0 <= i < params@.len() && is_index_param(params@[i]);
            &&& plan.steps@.contains(Step::CreateIndex) == index_asked
            &&& plan.steps@.contains(Step::DeleteIndex) == index_asked
            &&& plan.steps@.contains(Step::CallInner)
            &&& forall|a: int, b: int|
                0 <= a < plan.steps@.len() && 0 <= b < plan.steps@.len() && plan.steps@[a]
                    == Step::CreateIndex && plan.steps@[b] == Step::CallInner ==> a < b
            &&& forall|a: int, b: int|
                0 <= a < plan.steps@.len() && 0 <= b < plan.steps@.len() && plan.steps@[a]
                    == Step::CallInner && plan.steps@[b] == Step::DeleteIndex ==> a < b
        }),
{
    match item {
        TestItem::Other => Err(MacroError::NotAFunction),
        TestItem::Function { name, is_async, params } => {
            if !*is_async {
                return Err(MacroError::NotAsync);
            }
            let mut inner_name = String::from("_inner_meilisearch_test_macro_");
            inner_name.append(name.as_str());
            let args = classify_params(params)?;
            let steps = plan_steps(uses_client(&args), uses_name(&args), uses_index(&args));
            proof {
                lemma_index_param_iff(params@);
                lemma_steps_layout(needs_client(args@), needs_name(args@), needs_index(args@));
            }
            Ok(TestPlan { inner_name, test_name: name.clone(), args, steps })
        },
    }
}

/// The text with which the macro reports each refusal.
pub open spec fn message_text(e: MacroError) -> Seq<char> {
    match e {
        MacroError::HasArguments => "the #[async_test] attribute currently does not take parameters"@,
        MacroError::NotAFunction => "#[meilisearch_test] can only be applied to async functions"@,
        MacroError::NotAsync => "#[meilisearch_test] can only be applied to async functions"@,
        MacroError::UnsupportedType(shown) =>
            "#[meilisearch_test] can only receive Client, Index or String as parameters but received "@
                + shown@,
        MacroError::Receiver =>
            "#[meilisearch_test] can only receive Client, Index or String as parameters"@,
    }
}

impl MacroError {
    /// The text with which the macro reports this refusal.
    pub fn message(&self) -> (text: String)
        ensures
            text@ == message_text(*self),
    {
        match self {
            MacroError::HasArguments => String::from(
                "the #[async_test] attribute currently does not take parameters",
            ),
            MacroError::NotAFunction => String::from(
                "#[meilisearch_test] can only be applied to async functions",
            ),
            MacroError::NotAsync => String::from(
                "#[meilisearch_test] can only be applied to async functions",
            ),
            MacroError::UnsupportedType(shown) => {
                let mut text = String::from(
                    "#[meilisearch_test] can only receive Client, Index or String as parameters but received ",
                );
                text.append(shown.as_str());
                text
            },
            MacroError::Receiver => String::from(
                "#[meilisearch_test] can only receive Client, Index or String as parameters",
            ),
        }
    }
}

/// A test that receives an index also receives what making the index needs:
/// a client and its name.
pub proof fn lemma_index_needs_client_and_name(args: Seq<Param>)
    requires
        needs_index(args),
    ensures
        needs_client(args),
        needs_name(args),
{
    let i = choose|i: int| 0 <= i < args.len() && args[i] == Param::Index;
    assert(0 <= i < args.len() && (args[i] == Param::Client || args[i] == Param::Index));
    assert(0 <= i < args.len() && (args[i] == Param::String || args[i] == Param::Index));
}

/// Every parameter receives what its own type asks for: the arguments match
/// the parameters one by one, in order.
pub proof fn lemma_args_follow_params(ps: Seq<ParamType>)
    requires
        classify_all(ps) is Ok,
    ensures
        classify_all(ps)->Ok_0.len() == ps.len(),
        forall|i: int|
            0 <= i < ps.len() ==> classify(#[trigger] ps[i]) == Ok::<Param, MacroError>(
                classify_all(ps)->Ok_0[i],
            ),
    decreases ps.len(),
{
    if ps.len() > 0 {
        let front = ps.drop_last();
        lemma_args_follow_params(front);
        assert forall|i: int| 0 <= i < ps.len() implies classify(#[trigger] ps[i]) == Ok::<
            Param,
            MacroError,
        >(classify_all(ps)->Ok_0[i]) by {
            if i < ps.len() - 1 {
                assert(ps[i] == front[i]);
            }
        }
    }
}

/// The written test in three parts: the preparations, then the one call of
/// the body at `k`, then the cleanup and the return.
proof fn lemma_steps_segments(client: bool, name: bool, index: bool) -> (k: int)
    ensures
        ({
            let s = steps_for(client, name, index);
            let c = if client { 1int } else { 0int };
            let n = if name { 1int } else { 0int };
            &&& 0 <= k < s.len()
            &&& s[k] == Step::CallInner
            &&& k == c + n + (if index { 1int } else { 0int })
            &&& s.len() == k + 2 + (if index { 1int } else { 0int })
            &&& forall|j: int| 0 <= j < c ==> s[j] == Step::CreateClient
            &&& forall|j: int| c <= j < c + n ==> s[j] == Step::BindName
            &&& forall|j: int| c + n <= j < k ==> s[j] == Step::CreateIndex
            &&& forall|j: int| k < j < s.len() - 1 ==> s[j] == Step::DeleteIndex
            &&& s[s.len() - 1] == Step::ReturnResult
        }),
{
    let s = steps_for(client, name, index);
    let c = when(client, Step::CreateClient);
    let n = when(name, Step::BindName);
    let x = when(index, Step::CreateIndex);
    let d = when(index, Step::DeleteIndex);
    let k: int = (c.len() + n.len() + x.len()) as int;
    assert(s =~= c + n + x + seq![Step::CallInner] + d + seq![Step::ReturnResult]);
    k
}

/// The written test is laid out as the macro promises: it ends by returning
/// the result of the one call of the body; an index is made exactly when the
/// test receives one, after the client and the name exist and before the
/// call, and is deleted after the call.
#[verifier::rlimit(40)]
pub proof fn lemma_steps_layout(client: bool, name: bool, index: bool)
    ensures
        ({
            let s = steps_for(client, name, index);
            &&& s.len() > 0
            &&& s.last() == Step::ReturnResult
            &&& exists|k: int|
                0 <= k < s.len() && s[k] == Step::CallInner && forall|j: int|
                    0 <= j < s.len() && j != k ==> s[j] != Step::CallInner
            &&& s.contains(Step::CreateIndex) == index
            &&& s.contains(Step::DeleteIndex) == index
            &&& s.contains(Step::CreateClient) == client
            &&& s.contains(Step::BindName) == name
            &&& forall|a: int, b: int|
                0 <= a < s.len() && 0 <= b < s.len() && s[a] == Step::CreateIndex && s[b]
                    == Step::CallInner ==> a < b
            &&& forall|a: int, b: int|
                0 <= a < s.len() && 0 <= b < s.len() && s[a] == Step::CallInner && s[b]
                    == Step::DeleteIndex ==> a < b
            &&& forall|a: int, b: int|
                0 <= a < s.len() && 0 <= b < s.len() && (s[a] == Step::CreateClient || s[a]
                    == Step::BindName) && s[b] == Step::CreateIndex ==> a < b
        }),
{
    let s = steps_for(client, name, index);
    let k = lemma_steps_segments(client, name, index);
    let c = if client { 1int } else { 0int };
    let n = if name { 1int } else { 0int };
    assert(forall|j: int| 0 <= j < s.len() && j != k ==> s[j] != Step::CallInner);
    if client {
        assert(s[0] == Step::CreateClient);
    }
    if name {
        assert(s[c] == Step::BindName);
    }
    if index {
        assert(s[k - 1] == Step::CreateIndex);
        assert(s[k + 1] == Step::DeleteIndex);
    }
}

/// The body keeps a name of its own, never that of the test that calls it.
pub proof fn lemma_inner_name_differs(name: Seq<char>)
    ensures
        inner_prefix() + name != name,
{
    reveal_strlit("_inner_meilisearch_test_macro_");
    assert((inner_prefix() + name).len() > name.len());
}

/// A parameter receives an index exactly when its type is a path ending in
/// `Index`, wherever it stands among the parameters; so the test needs an
/// index of its own exactly when one of its parameters, at any position, is
/// an `Index`.
pub proof fn lemma_index_param_iff(ps: Seq<ParamType>)
    requires
        classify_all(ps) is Ok,
    ensures
        forall|i: int|
            0 <= i < ps.len() ==> (classify_all(ps)->Ok_0[i] == Param::Index <==> is_index_param(
                #[trigger] ps[i],
            )),
        needs_index(classify_all(ps)->Ok_0) <==> exists|i: int|
            0 <= i < ps.len() && is_index_param(ps[i]),
{
    reveal_strlit("Index");
    reveal_strlit("String");
    assert("Index"@.len() == 5);
    assert("String"@.len() == 6);
    lemma_args_follow_params(ps);
    let args = classify_all(ps)->Ok_0;
    assert forall|i: int| 0 <= i < ps.len() implies (args[i] == Param::Index <==> is_index_param(
        #[trigger] ps[i],
    )) by {
        assert(classify(ps[i]) == Ok::<Param, MacroError>(args[i]));
    }
    if needs_index(args) {
        let i = choose|i: int| 0 <= i < args.len() && args[i] == Param::Index;
        assert(is_index_param(ps[i]));
    }
    if exists|i: int| 0 <= i < ps.len() && is_index_param(ps[i]) {
        let i = choose|i: int| 0 <= i < ps.len() && is_index_param(ps[i]);
        assert(args[i] == Param::Index);
    }
}

/// The written test makes and deletes an index exactly when some parameter,
/// at any position, is an `Index`; it makes it before the call of the body
/// and deletes it after.
pub proof fn lemma_plan_index_lifecycle(plan: TestPlan, name: Seq<char>, ps: Seq<ParamType>)
    requires
        classify_all(ps) is Ok,
        plans(plan, name, classify_all(ps)->Ok_0),
    ensures
        plan.steps@.contains(Step::CreateIndex) <==> exists|i: int|
            0 <= i < ps.len() && is_index_param(ps[i]),
        plan.steps@.contains(Step::DeleteIndex) <==> exists|i: int|
            0 <= i < ps.len() && is_index_param(ps[i]),
        forall|a: int, b: int|
            0 <= a < plan.steps@.len() && 0 <= b < plan.steps@.len() && plan.steps@[a]
                == Step::CreateIndex && plan.steps@[b] == Step::CallInner ==> a < b,
        forall|a: int, b: int|
            0 <= a < plan.steps@.len() && 0 <= b < plan.steps@.len() && plan.steps@[a]
                == Step::CallInner && plan.steps@[b] == Step::DeleteIndex ==> a < b,
{
    let args = classify_all(ps)->Ok_0;
    lemma_index_param_iff(ps);
    lemma_steps_layout(needs_client(args), needs_name(args), needs_index(args));
}

/// A test gets a client exactly when some parameter is a `Client` or an
/// `Index`, and its name exactly when some parameter is a `String` or an
/// `Index`.
pub proof fn lemma_needs_meaning(args: Seq<Param>)
    ensures
        needs_client(args) <==> exists|i: int|
            0 <= i < args.len() && (args[i] == Param::Client || args[i] == Param::Index),
        needs_name(args) <==> exists|i: int|
            0 <= i < args.len() && (args[i] == Param::String || args[i] == Param::Index),
        needs_index(args) <==> exists|i: int| 0 <= i < args.len() && args[i] == Param::Index,
{
}

/// What one parameter receives is decided by the last segment of its type's
/// path alone: `Client`, `Index` and `String` receive a client, an index and
/// the test's name; any other type, and `self`, are refused.
pub proof fn lemma_classify_meaning(p: ParamType)
    ensures
        classify(p) == Ok::<Param, MacroError>(Param::Client) <==> (p matches ParamType::Path {
            last,
            ..
        } && last@ == "Client"@),
        classify(p) == Ok::<Param, MacroError>(Param::Index) <==> is_index_param(p),
        classify(p) == Ok::<Param, MacroError>(Param::String) <==> (p matches ParamType::Path {
            last,
            ..
        } && last@ == "String"@),
        p is Receiver ==> classify(p) == Err::<Param, MacroError>(MacroError::Receiver),
        p matches ParamType::Other { shown } ==> classify(p) == Err::<Param, MacroError>(
            MacroError::UnsupportedType(shown),
        ),
        p matches ParamType::Path { last, shown } ==> (last@ != "Client"@ && last@ != "Index"@
            && last@ != "String"@ ==> classify(p) == Err::<Param, MacroError>(
            MacroError::UnsupportedType(shown),
        )),
{
    reveal_strlit("Index");
    reveal_strlit("String");
    reveal_strlit("Client");
    assert("Index"@.len() == 5);
    assert("String"@.len() == 6);
    assert("Client"@.len() == 6);
    assert("String"@[0] == 'S');
    assert("Client"@[0] == 'C');
}

/// A refusal names the first parameter that the macro cannot serve: every
/// parameter before it is served.
pub proof fn lemma_first_refusal(ps: Seq<ParamType>)
    requires
        classify_all(ps) is Err,
    ensures
        exists|i: int|
            0 <= i < ps.len() && classify(#[trigger] ps[i]) == Err::<Param, MacroError>(
                classify_all(ps)->Err_0,
            ) && forall|j: int| 0 <= j < i ==> classify(#[trigger] ps[j]) is Ok,
    decreases ps.len(),
{
    let front = ps.drop_last();
    match classify_all(front) {
        Err(_) => {
            lemma_first_refusal(front);
            let i = choose|i: int|
                0 <= i < front.len() && classify(#[trigger] front[i]) == Err::<Param, MacroError>(
                    classify_all(front)->Err_0,
                ) && forall|j: int| 0 <= j < i ==> classify(#[trigger] front[j]) is Ok;
            assert(ps[i] == front[i]);
            assert forall|j: int| 0 <= j < i implies classify(#[trigger] ps[j]) is Ok by {
                assert(ps[j] == front[j]);
            }
        },
        Ok(_) => {
            lemma_args_follow_params(front);
            let i = ps.len() - 1;
            assert forall|j: int| 0 <= j < i implies classify(#[trigger] ps[j]) is Ok by {
                assert(ps[j] == front[j]);
            }
        },
    }
}

} // verus!
