//! Listing the tools of a server.
use crate::client::McpClient;
use crate::error::ClientError;
use vstd::prelude::*;

verus! {

/// All the converted items in their order, or the error of the first one that was not converted.
pub open spec fn all_converted<U, E>(items: Seq<Result<U, E>>) -> Result<Seq<U>, E>
    decreases items.len(),
{
    if items.len() == 0 {
        Ok(Seq::empty())
    } else {
        match (all_converted(items.drop_last()), items.last()) {
            (Err(error), _) => Err(error),
            (Ok(_), Err(error)) => Err(error),
            (Ok(converted), Ok(item)) => Ok(converted.push(item)),
        }
    }
}

impl McpClient {
    /// The tools of a server. `listed` is what the service gave over all pages of the list, each tool
    /// after its conversion.
    pub fn list_all_tools<U, E>(listed: Result<Vec<Result<U, E>>, E>) -> (tools: Result<
        Vec<U>,
        ClientError<E>,
    >)
        ensures
            match listed {
                Err(error) => tools == Err::<Vec<U>, ClientError<E>>(ClientError::Service(error)),
                Ok(items) => match all_converted(items@) {
                    Ok(converted) => tools matches Ok(tools) && tools@ == converted,
                    Err(error) => tools == Err::<Vec<U>, ClientError<E>>(ClientError::Service(error)),
                },
            },
    {
        let items = match listed {
            Ok(items) => items,
            Err(error) => {
                return Err(ClientError::Service(error));
            },
        };
        let ghost all = items@;
        let mut tools: Vec<U> = Vec::new();
        for item in it: items
            invariant
                listed matches Ok(items) && items@ == all,
                it.seq() == all,
                all_converted(all.take(it.index())) == Ok::<Seq<U>, E>(tools@),
        {
            proof {
                assert(all.take(it.index() + 1).drop_last() =~= all.take(it.index()));
            }
            match item {
                Ok(tool) => {
                    tools.push(tool);
                },
                Err(error) => {
                    proof {
                        lemma_error_stays(all, it.index() + 1);
                    }
                    return Err(ClientError::Service(error));
                },
            }
        }
        proof {
            assert(all.take(all.len() as int) =~= all);
        }
        Ok(tools)
    }
}

proof fn lemma_error_stays<U, E>(items: Seq<Result<U, E>>, count: int)
    requires
        0 <= count <= items.len(),
        all_converted(items.take(count)) is Err,
    ensures
        all_converted(items) == all_converted(items.take(count)),
    decreases items.len() - count,
{
    if count < items.len() {
        assert(items.take(count + 1).drop_last() =~= items.take(count));
        lemma_error_stays(items, count + 1);
    } else {
        assert(items.take(count) =~= items);
    }
}

/// A list that is given has all the tools that were listed, in their order.
pub proof fn law_no_tool_is_lost<U, E>(items: Seq<Result<U, E>>)
    ensures
        all_converted(items) is Ok <==> (forall|i: int|
            0 <= i < items.len() ==> (#[trigger] items[i]) is Ok),
        all_converted(items) matches Ok(tools) ==> tools.len() == items.len() && (forall|i: int|
            0 <= i < items.len() ==> items[i] == Ok::<U, E>(#[trigger] tools[i])),
    decreases items.len(),
{
    if items.len() > 0 {
        let rest = items.drop_last();
        law_no_tool_is_lost(rest);
        assert(forall|i: int| 0 <= i < rest.len() ==> #[trigger] rest[i] == items[i]);
        assert(items.last() == items[items.len() - 1]);
        if forall|i: int| 0 <= i < items.len() ==> (#[trigger] items[i]) is Ok {
            assert forall|i: int| 0 <= i < rest.len() implies (#[trigger] rest[i]) is Ok by {
                assert(items[i] is Ok);
            }
        }
        if all_converted(items) is Ok {
            assert forall|i: int| 0 <= i < items.len() implies (#[trigger] items[i]) is Ok by {
                if i < rest.len() {
                    assert(rest[i] is Ok);
                }
            }
        }
    }
}

/// The first tool that cannot be converted is the one whose error is given.
pub proof fn law_first_failure_is_reported<U, E>(items: Seq<Result<U, E>>, at: int)
    requires
        0 <= at < items.len(),
        items[at] is Err,
        forall|i: int| 0 <= i < at ==> (#[trigger] items[i]) is Ok,
    ensures
        all_converted(items) == Err::<Seq<U>, E>(items[at]->Err_0),
{
    let before = items.take(at);
    law_no_tool_is_lost(before);
    assert forall|i: int| 0 <= i < before.len() implies (#[trigger] before[i]) is Ok by {
        assert(items[i] is Ok);
    }
    assert(items.take(at + 1).drop_last() =~= before);
    lemma_error_stays(items, at + 1);
}

/// The tools that are given are the converted items, each in its place; they are given exactly when
/// there is a list and all its items were converted.
pub proof fn law_all_listed_tools_are_given<U, E>(
    items: Vec<Result<U, E>>,
    tools: Result<Vec<U>, ClientError<E>>,
)
    requires
        call_ensures(McpClient::list_all_tools::<U, E>, (Ok(items),), tools),
    ensures
        tools is Ok <==> (forall|i: int| 0 <= i < items@.len() ==> (#[trigger] items@[i]) is Ok),
        tools matches Ok(tools) ==> tools@.len() == items@.len() && (forall|i: int|
            0 <= i < items@.len() ==> items@[i] == Ok::<U, E>(#[trigger] tools@[i])),
{
    law_no_tool_is_lost(items@);
}

/// Without a list, or with an item that was not converted, there are no tools but the error: that of
/// the list, or that of the first such item.
pub proof fn law_listing_fails_with_the_first_error<U, E>(
    error: E,
    items: Vec<Result<U, E>>,
    at: int,
    unlisted: Result<Vec<U>, ClientError<E>>,
    unconverted: Result<Vec<U>, ClientError<E>>,
)
    requires
        call_ensures(McpClient::list_all_tools::<U, E>, (Err(error),), unlisted),
        call_ensures(McpClient::list_all_tools::<U, E>, (Ok(items),), unconverted),
        0 <= at < items@.len(),
        items@[at] is Err,
        forall|i: int| 0 <= i < at ==> (#[trigger] items@[i]) is Ok,
    ensures
        unlisted matches Err(ClientError::Service(kept)) && kept == error,
        unconverted matches Err(ClientError::Service(kept)) && kept == items@[at]->Err_0,
{
    law_first_failure_is_reported(items@, at);
}

} // verus!
