use crate::models::general::llm::{message_views, Message, MessageView};
use vstd::prelude::*;

verus! {

/// Where an agent stands in its work. `Finished` is terminal.
#[derive(Clone, Copy, Debug, PartialEq, Eq, Structural)]
pub enum AgentState {
    Discovery,
    Working,
    UnitTesting,
    Finished,
}

/// What every agent carries: its goal, its role name, its state and the
/// messages it has exchanged so far.
#[derive(Debug, Clone, PartialEq, Eq)]
pub struct BasicAgent {
    pub objective: String,
    pub position: String,
    pub state: AgentState,
    pub memory: Vec<Message>,
}

/// The mathematical value of a [`BasicAgent`].
pub struct BasicAgentView {
    pub objective: Seq<char>,
    pub position: Seq<char>,
    pub state: AgentState,
    pub memory: Seq<MessageView>,
}

impl View for BasicAgent {
    type V = BasicAgentView;

    open spec fn view(&self) -> BasicAgentView {
        BasicAgentView {
            objective: self.objective@,
            position: self.position@,
            state: self.state,
            memory: message_views(self.memory@),
        }
    }
}

impl BasicAgent {
    /// An agent at the start of its work, with nothing remembered.
    pub fn new(objective: String, position: String) -> (agent: Self)
        ensures
            agent@ == (BasicAgentView {
                objective: objective@,
                position: position@,
                state: AgentState::Discovery,
                memory: Seq::<MessageView>::empty(),
            }),
    {
        let agent = BasicAgent {
            objective,
            position,
            state: AgentState::Discovery,
            memory: Vec::new(),
        };
        assert(message_views(agent.memory@) =~= Seq::<MessageView>::empty());
        agent
    }

    /// Moves the agent to `new_state` and changes nothing else.
    pub fn update_state(&mut self, new_state: AgentState)
        ensures
            final(self)@ == (BasicAgentView { state: new_state, ..old(self)@ }),
    {
        self.state = new_state;
    }

    pub fn get_objective(&self) -> (objective: &String)
        ensures
            objective@ == self@.objective,
    {
        &self.objective
    }

    pub fn get_position(&self) -> (position: &String)
        ensures
            position@ == self@.position,
    {
        &self.position
    }

    pub fn get_state(&self) -> (state: &AgentState)
        ensures
            *state == self@.state,
    {
        &self.state
    }

    pub fn get_memory(&self) -> (memory: &Vec<Message>)
        ensures
            message_views(memory@) == self@.memory,
    {
        &self.memory
    }
}

} // verus!
