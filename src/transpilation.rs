use vstd::prelude::*;

verus! {

/// Directory that holds the projects being transpiled.
pub const TMP: &'static str = "tmp";

/// Name of the contract file inside a project.
pub const FILE_NAME: &'static str = "main.sol";

/// Path of the project directory `tmp/<project_name>`.
pub fn project_path(project_name: String) -> (r: String)
    ensures
        r@ == TMP@ + "/"@ + project_name@,
{
    let dir = String::from_str(TMP).concat("/");
    dir.concat(project_name.as_str())
}

/// Path of the contract file `tmp/<project_name>/main.sol`.
pub fn contract_path(project_name: String) -> (r: String)
    ensures
        r@ == TMP@ + "/"@ + project_name@ + "/"@ + FILE_NAME@,
{
    let dir = project_path(project_name);
    dir.concat("/").concat(FILE_NAME)
}

} // verus!
