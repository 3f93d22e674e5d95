# zeebest

A client library for [Zeebe](https://zeebe.io/), the workflow engine, with its logic
verified by Verus.

`src/` is the verified library: the gateway's messages as plain values (`gateway`), the
data a client sends and receives (`data`), the requests that every call sends and what is
made of every answer (`client`, `publish_message`, `create_workflow_instance`,
`complete_job`, `fail_job`, `activate_jobs`), the token rules of the cloud
(`client::camunda_cloud_token_provider`), and the decisions of the job workers: how many
jobs to ask for, how a handler's result or panic is reported, how many retries a failed
job keeps (`worker`, `activate_and_process_jobs`, `job_fn`, `runtime_builder`, `stream`,
`blowetime`, `worker_builder`).

`app/` holds what talks to the outside world: the gRPC calls over tonic, the worker loops,
the authentication service, the token file, and the serialization of a caller's values into JSON variables. It asks the library what to send and what
an answer means.
