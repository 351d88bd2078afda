use crate::error::EngineError;
use vstd::prelude::*;

verus! {

/// How a writer commits its row groups to the destination file.
#[derive(Debug, Clone, Copy, PartialEq, Eq, Structural)]
pub enum Strategy {
    /// Pages stream straight into the file as each row group is written.
    File,
    /// Pages collect in a memory buffer that is copied to the file at seal.
    MemoryMerge,
}

/// Picks the strategy named by a configuration value: `file` or
/// `memory_merge`; any other value is a configuration error.
pub fn parse_strategy(selector: &str) -> (r: Result<Strategy, EngineError>)
    ensures
        selector@ == "file"@ ==> r == Ok::<Strategy, EngineError>(Strategy::File),
        selector@ == "memory_merge"@ ==> r == Ok::<Strategy, EngineError>(Strategy::MemoryMerge),
        selector@ != "file"@ && selector@ != "memory_merge"@ ==> r == Err::<Strategy, EngineError>(
            EngineError::Configuration,
        ),
{
    proof {
        reveal_strlit("file");
        reveal_strlit("memory_merge");
        assert("file"@.len() != "memory_merge"@.len());
    }
    let given = selector.to_owned();
    let file = "file".to_owned();
    let memory_merge = "memory_merge".to_owned();
    if given == file {
        Ok(Strategy::File)
    } else if given == memory_merge {
        Ok(Strategy::MemoryMerge)
    } else {
        Err(EngineError::Configuration)
    }
}

} // verus!
