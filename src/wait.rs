//! The arguments of a command that waits for cluster resources.
use vstd::prelude::*;

verus! {

/// What a wait command waits for: the resources' deletion, or a condition
/// on them.
#[derive(Debug, Clone)]
pub enum WaitFor<C> {
    Delete,
    Condition(C),
}

/// The `--for` value for `wait_for`.
pub open spec fn for_value(wait_for: WaitFor<String>) -> Seq<char> {
    match wait_for {
        WaitFor::Delete => "delete"@,
        WaitFor::Condition(c) => "condition="@ + c@,
    }
}

/// The arguments of a wait command, before its namespace choice: `wait`, the
/// resources, `--for` and its value, then the extra arguments.
pub open spec fn base_arguments(resources: Seq<Seq<char>>, wait_for: WaitFor<String>, extra: Seq<Seq<char>>) -> Seq<Seq<char>> {
    seq!["wait"@] + resources + seq!["--for"@, for_value(wait_for)] + extra
}

/// Appends copies of `items` to `out`.
pub(crate) fn push_all(out: &mut Vec<String>, items: &Vec<String>)
    ensures
        final(out).deep_view() == old(out).deep_view() + items.deep_view(),
{
    let ghost start = out.deep_view();
    let mut i: usize = 0;
    while i < items.len()
        invariant
            i <= items.len(),
            out.deep_view() == start + items.deep_view().take(i as int),
        decreases items.len() - i,
    {
        let s = items[i].clone();
        let ghost before = out.deep_view();
        out.push(s);
        assert(out.deep_view() =~= before + seq![items[i as int]@]);
        assert(items.deep_view().take(i + 1) =~= items.deep_view().take(i as int) + seq![items[i as int]@]);
        i = i + 1;
    }
    assert(items.deep_view().take(items.len() as int) =~= items.deep_view());
}

/// The arguments of a wait command, before its namespace choice.
pub fn prepare_base_arguments(resources: &Vec<String>, wait_for: &WaitFor<String>, extra: &Vec<String>) -> (r: Vec<String>)
    ensures
        r.deep_view() == base_arguments(resources.deep_view(), *wait_for, extra.deep_view()),
{
    proof {
        reveal_strlit("wait");
        reveal_strlit("--for");
        reveal_strlit("delete");
        reveal_strlit("condition=");
    }
    let mut out: Vec<String> = Vec::new();
    out.push(String::from_str("wait"));
    assert(out.deep_view() =~= seq!["wait"@]);
    push_all(&mut out, resources);
    let ghost a = out.deep_view();
    out.push(String::from_str("--for"));
    assert(out.deep_view() =~= a + seq!["--for"@]);
    let value = match wait_for {
        WaitFor::Delete => String::from_str("delete"),
        WaitFor::Condition(c) => {
            let mut v = String::from_str("condition=");
            v.append(c.as_str());
            v
        },
    };
    let ghost b = out.deep_view();
    out.push(value);
    assert(out.deep_view() =~= b + seq![for_value(*wait_for)]);
    push_all(&mut out, extra);
    assert(out.deep_view() =~= base_arguments(resources.deep_view(), *wait_for, extra.deep_view()));
    out
}

/// The arguments of a wait command limited to one namespace.
pub fn namespace_arguments(
    namespace: &str,
    resources: &Vec<String>,
    wait_for: &WaitFor<String>,
    extra: &Vec<String>,
) -> (r: Vec<String>)
    ensures
        r.deep_view() == base_arguments(resources.deep_view(), *wait_for, extra.deep_view()) + seq![
            "-n"@,
            namespace@,
        ],
{
    proof {
        reveal_strlit("-n");
    }
    let mut out = prepare_base_arguments(resources, wait_for, extra);
    out.push(String::from_str("-n"));
    out.push(namespace.to_owned());
    assert(out.deep_view() =~= base_arguments(resources.deep_view(), *wait_for, extra.deep_view())
        + seq!["-n"@, namespace@]);
    out
}

/// The arguments of a wait command over all namespaces.
pub fn all_namespaces_arguments(resources: &Vec<String>, wait_for: &WaitFor<String>, extra: &Vec<String>) -> (r: Vec<String>)
    ensures
        r.deep_view() == base_arguments(resources.deep_view(), *wait_for, extra.deep_view()) + seq![
            "--all-namespaces=true"@,
        ],
{
    proof {
        reveal_strlit("--all-namespaces=true");
    }
    let mut out = prepare_base_arguments(resources, wait_for, extra);
    out.push(String::from_str("--all-namespaces=true"));
    assert(out.deep_view() =~= base_arguments(resources.deep_view(), *wait_for, extra.deep_view())
        + seq!["--all-namespaces=true"@]);
    out
}

} // verus!
