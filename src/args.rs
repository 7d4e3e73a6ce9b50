use vstd::prelude::*;

verus! {

/// Error returned when the command line does not hold exactly one path.
pub const WRONG_ARG_COUNT: &'static str = "Wrong number of args. Usage: ./binary path/to/image/or/folder";

/// The parsed command line: the path of an image or of a folder.
#[derive(Debug)]
pub struct Args {
    pub path: String,
}

impl Args {
    /// Parses the process arguments, the program name included.
    ///
    /// Succeeds iff exactly two arguments were given; the path is the second.
    pub fn parse(argv: &Vec<String>) -> (r: Result<Args, &'static str>)
        ensures
            argv@.len() == 2 <==> r is Ok,
            r matches Ok(a) ==> a.path@ == argv@[1]@,
            argv@.len() != 2 ==> r == Err::<Args, &'static str>(WRONG_ARG_COUNT),
    {
        if argv.len() != 2 {
            return Err(WRONG_ARG_COUNT);
        }
        let path = argv[1].clone();
        Ok(Args { path })
    }
}

} // verus!
