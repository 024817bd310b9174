use redis_agent_worker::mediator::HostFunction;
use redis_agent_worker::guest::{
    call_mcp_tool, execute_agent, guest_functions, process_agent_request, string_parameters,
    GuestError, GuestStep, HostCall, ParameterValue,
};

fn text(s: &str) -> ParameterValue {
    ParameterValue::String(s.to_string())
}

#[test]
fn the_guest_offers_two_functions() {
    let functions = guest_functions();
    assert_eq!(functions.len(), 2);
    assert_eq!(functions[0].name, "ExecuteAgent");
    assert_eq!(functions[0].first_parameter, "prompt");
    assert_eq!(functions[0].second_parameter, "mcp_server_url");
    assert_eq!(functions[1].name, "CallMCPTool");
    assert_eq!(functions[1].first_parameter, "tool_name");
    assert_eq!(functions[1].second_parameter, "arguments");
}

#[test]
fn the_answer_names_the_prompt_and_the_tools() {
    assert_eq!(
        process_agent_request("fix it", "[\"read\",\"write\"]"),
        "Agent processed prompt: 'fix it'\nAvailable tools: [\"read\",\"write\"]\n\nAgent is running securely in Hyperlight guest!"
    );
    assert_eq!(
        process_agent_request("", ""),
        "Agent processed prompt: ''\nAvailable tools: \n\nAgent is running securely in Hyperlight guest!"
    );
}

#[test]
fn execute_agent_connects_lists_the_tools_and_answers() {
    let params = vec![text("fix it"), text("http://mcp-a:80")];
    let (mut call, first) = execute_agent(Some(&params)).unwrap();
    assert_eq!(
        first,
        HostCall::InitializeMCPConnection { url: "http://mcp-a:80".to_string() }
    );
    assert_eq!(call.advance(Ok(String::new())), GuestStep::Call(HostCall::GetMCPTools));
    assert_eq!(
        call.advance(Ok("[]".to_string())),
        GuestStep::Return(
            "Agent processed prompt: 'fix it'\nAvailable tools: []\n\nAgent is running securely in Hyperlight guest!"
                .to_string()
        )
    );
    assert_eq!(
        call.advance(Ok(String::new())),
        GuestStep::Fail(GuestError::HostCall("No host call is pending".to_string()))
    );
}

#[test]
fn a_refused_connection_ends_the_call() {
    let params = vec![text("fix it"), text("http://mcp-b:80")];
    let (mut call, _) = execute_agent(Some(&params)).unwrap();
    assert_eq!(
        call.advance(Err("Unauthorized network access".to_string())),
        GuestStep::Fail(GuestError::HostCall("Unauthorized network access".to_string()))
    );
    assert_eq!(
        call.advance(Ok("[]".to_string())),
        GuestStep::Fail(GuestError::HostCall("No host call is pending".to_string()))
    );
}

#[test]
fn a_failed_listing_ends_the_call() {
    let params = vec![text("p"), text("http://mcp-a")];
    let (mut call, _) = execute_agent(Some(&params)).unwrap();
    call.advance(Ok(String::new()));
    assert_eq!(
        call.advance(Err("HTTP request failed: down".to_string())),
        GuestStep::Fail(GuestError::HostCall("HTTP request failed: down".to_string()))
    );
}

#[test]
fn parameters_must_be_two_strings() {
    assert_eq!(
        execute_agent(None).unwrap_err(),
        GuestError::ParameterTypeMismatch("Missing parameters".to_string())
    );
    assert_eq!(
        execute_agent(Some(&vec![ParameterValue::Other, text("u")])).unwrap_err(),
        GuestError::ParameterTypeMismatch("First parameter must be string (prompt)".to_string())
    );
    assert_eq!(
        execute_agent(Some(&vec![text("p"), ParameterValue::Other])).unwrap_err(),
        GuestError::ParameterTypeMismatch(
            "Second parameter must be string (mcp_server_url)".to_string()
        )
    );
    assert_eq!(
        execute_agent(Some(&vec![])).unwrap_err(),
        GuestError::ParameterTypeMismatch("First parameter must be string (prompt)".to_string())
    );
    assert_eq!(
        execute_agent(Some(&vec![text("p")])).unwrap_err(),
        GuestError::ParameterTypeMismatch(
            "Second parameter must be string (mcp_server_url)".to_string()
        )
    );
    assert_eq!(
        call_mcp_tool(None),
        Err(GuestError::ParameterTypeMismatch("Missing parameters".to_string()))
    );
    assert_eq!(
        call_mcp_tool(Some(&vec![ParameterValue::Other, ParameterValue::Other])),
        Err(GuestError::ParameterTypeMismatch(
            "First parameter must be string (tool_name)".to_string()
        ))
    );
    assert_eq!(
        call_mcp_tool(Some(&vec![text("t"), ParameterValue::Other])),
        Err(GuestError::ParameterTypeMismatch(
            "Second parameter must be string (arguments)".to_string()
        ))
    );
}

#[test]
fn call_mcp_tool_hands_the_call_to_the_host() {
    assert_eq!(
        call_mcp_tool(Some(&vec![text("read_file"), text("{\"path\":\"a\"}"), text("extra")])),
        Ok(HostCall::ExecuteMCPTool {
            tool_name: "read_file".to_string(),
            arguments_json: "{\"path\":\"a\"}".to_string()
        })
    );
}

#[test]
fn string_parameters_reads_the_first_two() {
    assert_eq!(
        string_parameters(Some(&vec![text("a"), text("b")]), "x", "y"),
        Ok(("a".to_string(), "b".to_string()))
    );
    assert_eq!(
        string_parameters(Some(&vec![text("a")]), "x", "y"),
        Err(GuestError::ParameterTypeMismatch("Second parameter must be string (y)".to_string()))
    );
}

#[test]
fn each_call_of_the_guest_is_one_of_the_host_s_three() {
    assert_eq!(
        HostCall::InitializeMCPConnection { url: "u".to_string() }.function(),
        HostFunction::InitializeMCPConnection
    );
    assert_eq!(HostCall::GetMCPTools.function(), HostFunction::GetMCPTools);
    assert_eq!(
        HostCall::ExecuteMCPTool { tool_name: "t".to_string(), arguments_json: "{}".to_string() }
            .function(),
        HostFunction::ExecuteMCPTool
    );
}
