use vstd::prelude::*;

pub mod startup;

verus! {

/// Command invoked by the front end to put `text` on the system clipboard.
///
/// Nothing is written yet: the text is dropped and the call always succeeds.
pub fn clipboard_write(text: String) -> (r: Result<(), String>)
    ensures
        r == Ok::<(), String>(()),
{
    let _ = text;
    Ok(())
}

} // verus!
