//! The commands of the to-do list, as the command line gives them.
use vstd::prelude::*;
use crate::models::{opt_view, PriorityOrder};
use crate::text::views;

verus! {

/// A command line: one command.
pub struct Cli {
    pub command: Commands,
}

/// The commands. Words of titles, notes and search keys come one by one.
#[allow(inconsistent_fields)]
pub enum Commands {
    /// Adds a task.
    Add { title: Vec<String>, priority: Option<PriorityOrder>, due: Option<String>, notes: Option<Vec<String>> },
    /// Shows one task.
    Show { id: u64 },
    /// Lists tasks; without flags the ongoing ones.
    List {
        all: bool,
        completed: bool,
        ongoing: bool,
        low: bool,
        medium: bool,
        high: bool,
        deleted: bool,
    },
    /// Marks a task completed.
    Done { id: u64 },
    /// Marks a task ongoing again.
    Reopen { id: u64 },
    /// Deletes a task, which can be restored.
    Delete { id: u64 },
    /// Restores a deleted task.
    Restore { id: u64 },
    /// Removes a task for good, or with `all` every deleted task.
    Purge { id: Option<u64>, all: bool },
    /// Lists tasks due today or tomorrow.
    Due { today: bool, tomorrow: bool },
    /// Changes fields of a task.
    Update {
        id: u64,
        title: Option<Vec<String>>,
        due: Option<String>,
        priority: Option<PriorityOrder>,
        notes: Option<Vec<String>>,
    },
    /// Lists the tasks whose title or notes hold the words.
    Search { search_string: Vec<String> },
    /// Fills the table with sample tasks, first emptying it with `reset`.
    Seed { reset: bool },
    /// Counts tasks.
    Stats {},
    /// Shows the help text.
    Help {},
    /// Clears the screen.
    Clear {},
    /// Leaves the program.
    Exit {},
}

#[allow(inconsistent_fields)]
pub enum CommandsView {
    Add {
        title: Seq<Seq<char>>,
        priority: Option<PriorityOrder>,
        due: Option<Seq<char>>,
        notes: Option<Seq<Seq<char>>>,
    },
    Show { id: u64 },
    List {
        all: bool,
        completed: bool,
        ongoing: bool,
        low: bool,
        medium: bool,
        high: bool,
        deleted: bool,
    },
    Done { id: u64 },
    Reopen { id: u64 },
    Delete { id: u64 },
    Restore { id: u64 },
    Purge { id: Option<u64>, all: bool },
    Due { today: bool, tomorrow: bool },
    Update {
        id: u64,
        title: Option<Seq<Seq<char>>>,
        due: Option<Seq<char>>,
        priority: Option<PriorityOrder>,
        notes: Option<Seq<Seq<char>>>,
    },
    Search { search_string: Seq<Seq<char>> },
    Seed { reset: bool },
    Stats,
    Help,
    Clear,
    Exit,
}

pub open spec fn opt_words(o: Option<Vec<String>>) -> Option<Seq<Seq<char>>> {
    match o {
        Some(v) => Some(views(v@)),
        None => None,
    }
}

impl View for Commands {
    type V = CommandsView;

    open spec fn view(&self) -> CommandsView {
        match self {
            Commands::Add { title, priority, due, notes } => CommandsView::Add {
                title: views(title@),
                priority: *priority,
                due: opt_view(*due),
                notes: opt_words(*notes),
            },
            Commands::Show { id } => CommandsView::Show { id: *id },
            Commands::List { all, completed, ongoing, low, medium, high, deleted } =>
                CommandsView::List {
                all: *all,
                completed: *completed,
                ongoing: *ongoing,
                low: *low,
                medium: *medium,
                high: *high,
                deleted: *deleted,
            },
            Commands::Done { id } => CommandsView::Done { id: *id },
            Commands::Reopen { id } => CommandsView::Reopen { id: *id },
            Commands::Delete { id } => CommandsView::Delete { id: *id },
            Commands::Restore { id } => CommandsView::Restore { id: *id },
            Commands::Purge { id, all } => CommandsView::Purge { id: *id, all: *all },
            Commands::Due { today, tomorrow } => CommandsView::Due {
                today: *today,
                tomorrow: *tomorrow,
            },
            Commands::Update { id, title, due, priority, notes } => CommandsView::Update {
                id: *id,
                title: opt_words(*title),
                due: opt_view(*due),
                priority: *priority,
                notes: opt_words(*notes),
            },
            Commands::Search { search_string } => CommandsView::Search {
                search_string: views(search_string@),
            },
            Commands::Seed { reset } => CommandsView::Seed { reset: *reset },
            Commands::Stats {  } => CommandsView::Stats,
            Commands::Help {  } => CommandsView::Help,
            Commands::Clear {  } => CommandsView::Clear,
            Commands::Exit {  } => CommandsView::Exit,
        }
    }
}

} // verus!
