//! What the model sees in one step: the tool definitions and the prepared context.
use vstd::prelude::*;

use crate::agent_events::RecordEntry;
use crate::context_engine::StepContext;
use crate::context_run::CompactionResult;
use crate::llm::ToolDefinition;
use crate::turn_loop::PreparedContext;
use crate::turn_state::{aborted_error, TurnError};

verus! {

/// Whether tools are filtered for the plan mode: the policy honours the plan mode and
/// the plan mode is active.
pub fn plan_filter(policy_plan_mode: bool, plan_mode_active: bool) -> (r: bool)
    ensures
        r == (policy_plan_mode && plan_mode_active),
{
    policy_plan_mode && plan_mode_active
}

/// The visible ones of the given definitions, in their order.
pub open spec fn visible_definitions(
    definitions: Seq<ToolDefinition>,
    visible: Seq<bool>,
) -> Seq<ToolDefinition>
    decreases definitions.len(),
{
    if definitions.len() == 0 {
        Seq::empty()
    } else {
        let before = visible_definitions(definitions.drop_last(), visible);
        if visible[definitions.len() - 1] {
            before.push(definitions.last())
        } else {
            before
        }
    }
}

/// The tool definitions that go to the model. `visible` tells of each definition
/// whether it is shown.
pub fn tool_definitions_for_llm(definitions: Vec<ToolDefinition>, visible: &Vec<bool>) -> (r: Vec<
    ToolDefinition,
>)
    requires
        visible.len() == definitions.len(),
    ensures
        r@ == visible_definitions(definitions@, visible@),
{
    let mut shown = definitions;
    let ghost all = shown@;
    let mut kept: usize = 0;
    let mut i: usize = 0;
    let total: usize = shown.len();
    proof {
        assert(all.take(0) == Seq::<ToolDefinition>::empty());
        assert(shown@ == visible_definitions(all.take(0), visible@) + all.skip(0));
    }
    while i < total
        invariant
            i <= total,
            total == all.len(),
            visible.len() == total,
            kept <= i,
            kept == visible_definitions(all.take(i as int), visible@).len(),
            shown@ == visible_definitions(all.take(i as int), visible@) + all.skip(i as int),
        decreases total - i,
    {
        proof {
            assert(all.take(i + 1).drop_last() == all.take(i as int));
            assert(all.take(i + 1).last() == all[i as int]);
        }
        let ghost before = visible_definitions(all.take(i as int), visible@);
        if visible[i] {
            kept += 1;
            proof {
                assert(shown@ == before.push(all[i as int]) + all.skip(i + 1));
            }
        } else {
            shown.remove(kept);
            proof {
                assert(shown@ == before + all.skip(i + 1));
            }
        }
        i += 1;
    }
    proof {
        assert(all.take(total as int) == all);
        assert(shown@ == visible_definitions(all, visible@));
    }
    shown
}

/// What the record keeps of a compaction that was made at the time `ts`.
pub fn compaction_entry(result: &CompactionResult, ts: i64) -> (r: RecordEntry)
    ensures
        r matches RecordEntry::Compaction {
            reason,
            compacted_count,
            tokens_before,
            tokens_after,
            ts: at,
        } && reason@ == result.reason@ && compacted_count == result.compacted_count
            && tokens_before == Some(result.tokens_before) && tokens_after == Some(
            result.tokens_after,
        ) && at == ts,
{
    RecordEntry::Compaction {
        reason: result.reason.clone(),
        compacted_count: result.compacted_count,
        tokens_before: Some(result.tokens_before),
        tokens_after: Some(result.tokens_after),
        ts,
    }
}

/// The context of one model call, from the step that the context engine prepared.
/// A turn that was cancelled before has none.
pub fn prepare_step_context(cancelled: bool, step: StepContext, tools: Vec<ToolDefinition>) -> (r:
    Result<PreparedContext, TurnError>)
    ensures
        match r {
            Ok(context) => {
                &&& !cancelled
                &&& context.messages == step.messages
                &&& context.tools == tools
                &&& context.context_epoch == Some(step.metadata.context_epoch)
                &&& context.metadata == Some(step.metadata)
                &&& context.estimate_tokens == Some(step.estimate_tokens)
            },
            Err(error) => cancelled && error == TurnError::Aborted,
        },
{
    if cancelled {
        return Err(aborted_error());
    }
    let epoch: u64 = step.metadata.context_epoch;
    Ok(
        PreparedContext {
            messages: step.messages,
            tools,
            context_epoch: Some(epoch),
            metadata: Some(step.metadata),
            estimate_tokens: Some(step.estimate_tokens),
        },
    )
}

/// Without the plan mode every tool stays visible, in its order.
pub proof fn everything_is_visible_without_a_filter(
    definitions: Seq<ToolDefinition>,
    visible: Seq<bool>,
)
    requires
        visible.len() == definitions.len(),
        forall|i: int| 0 <= i < visible.len() ==> visible[i],
    ensures
        visible_definitions(definitions, visible) == definitions,
{
    lemma_all_visible(definitions, visible, definitions.len() as int);
    assert(definitions.take(definitions.len() as int) == definitions);
}

proof fn lemma_all_visible(definitions: Seq<ToolDefinition>, visible: Seq<bool>, n: int)
    requires
        0 <= n <= definitions.len(),
        visible.len() == definitions.len(),
        forall|i: int| 0 <= i < visible.len() ==> visible[i],
    ensures
        visible_definitions(definitions.take(n), visible) == definitions.take(n),
    decreases n,
{
    if n > 0 {
        lemma_all_visible(definitions, visible, n - 1);
        assert(definitions.take(n).drop_last() == definitions.take(n - 1));
        assert(definitions.take(n - 1).push(definitions[n - 1]) == definitions.take(n));
    }
}

/// Of the tools exactly those are shown that are visible, in their order.
pub proof fn visible_tools_are_shown_in_order(
    definitions: Seq<ToolDefinition>,
    definition: ToolDefinition,
    visible: Seq<bool>,
)
    requires
        visible.len() == definitions.len() + 1,
    ensures
        visible_definitions(Seq::empty(), visible).len() == 0,
        visible.last() ==> visible_definitions(definitions.push(definition), visible)
            == visible_definitions(definitions, visible).push(definition),
        !visible.last() ==> visible_definitions(definitions.push(definition), visible)
            == visible_definitions(definitions, visible),
{
    assert(definitions.push(definition).drop_last() == definitions);
}

/// The plan mode filters only where the policy honours it and it is active.
pub proof fn plan_mode_filters_where_honoured(policy: bool, active: bool, r: bool)
    requires
        call_ensures(plan_filter, (policy, active), r),
    ensures
        r ==> policy && active,
        policy && active ==> r,
{
}

/// What the model is given is the step that was prepared: its messages, the tools, the epoch
/// and the estimate. A cancelled turn is given nothing.
pub proof fn models_are_given_the_prepared_step(
    cancelled: bool,
    step: StepContext,
    tools: Vec<ToolDefinition>,
    r: Result<PreparedContext, TurnError>,
)
    requires
        call_ensures(prepare_step_context, (cancelled, step, tools), r),
    ensures
        r is Err <==> cancelled,
        r matches Err(error) ==> error is Aborted,
        r matches Ok(context) ==> context.messages == step.messages && context.tools == tools
            && context.context_epoch == Some(step.metadata.context_epoch) && context.estimate_tokens
            == Some(step.estimate_tokens) && context.metadata == Some(step.metadata),
{
}

/// The record of a compaction tells its reason, how much it compacted, and the sizes before
/// and after.
pub proof fn compactions_are_recorded_as_made(result: &CompactionResult, ts: i64, r: RecordEntry)
    requires
        call_ensures(compaction_entry, (result, ts), r),
    ensures
        r matches RecordEntry::Compaction { reason, compacted_count, tokens_before, tokens_after, ts: at }
            && reason@ == result.reason@ && compacted_count == result.compacted_count && tokens_before
            == Some(result.tokens_before) && tokens_after == Some(result.tokens_after) && at == ts,
{
}

} // verus!
